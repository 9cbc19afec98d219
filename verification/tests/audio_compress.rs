use storyforge::audio_compress::{
    compress_command, compress_outcome, compressed_name, compressed_path,
};

#[test]
fn compressed_name_appends_the_suffix() {
    assert_eq!(compressed_name("chapter one"), "chapter one_compressed.mp3");
    assert_eq!(compressed_name(""), "_compressed.mp3");
}

#[test]
fn compressed_path_lies_beside_the_input() {
    assert_eq!(compressed_path("/voice/chapter one.wav"), "/voice/chapter one_compressed.mp3");
    assert_eq!(compressed_path("/voice/take.2.m4a"), "/voice/take.2_compressed.mp3");
    assert_eq!(compressed_path("voice/noext"), "voice/noext_compressed.mp3");
}

#[test]
fn compressed_path_of_a_bare_name_is_relative() {
    assert_eq!(compressed_path("talk.wav"), "talk_compressed.mp3");
}

#[test]
fn compressed_path_without_parent_or_stem() {
    assert_eq!(compressed_path("/"), "./_compressed.mp3");
    assert_eq!(compressed_path(""), "./_compressed.mp3");
}

#[test]
fn compress_command_makes_small_mono_audio() {
    let command = compress_command("/voice/a.wav", "/voice/a_compressed.mp3");
    assert_eq!(command.program, "ffmpeg");
    assert_eq!(
        command.arguments,
        vec![
            "-i",
            "/voice/a.wav",
            "-ar",
            "16000",
            "-ac",
            "1",
            "-b:a",
            "32k",
            "-y",
            "/voice/a_compressed.mp3"
        ]
    );
}

#[test]
fn compress_outcome_is_the_path_or_the_failure() {
    assert_eq!(compress_outcome(true, "/v/a.mp3".to_string()), Ok("/v/a.mp3".to_string()));
    assert_eq!(
        compress_outcome(false, "/v/a.mp3".to_string()),
        Err("FFmpeg compression failed".to_string())
    );
}
