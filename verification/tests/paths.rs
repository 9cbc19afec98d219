use storyforge::paths::{extension, extension_of_name, file_stem, stem_of_name};

fn text(s: &str) -> Option<String> {
    Some(s.to_string())
}

#[test]
fn extension_of_name_follows_the_last_dot() {
    assert_eq!(extension_of_name("clip.mp4"), text("mp4"));
    assert_eq!(extension_of_name("archive.tar.gz"), text("gz"));
    assert_eq!(extension_of_name("trailing."), text(""));
    assert_eq!(extension_of_name("a..b"), text("b"));
}

#[test]
fn extension_of_name_is_none_without_an_embedded_dot() {
    assert_eq!(extension_of_name("clip"), None);
    assert_eq!(extension_of_name(".bashrc"), None);
    assert_eq!(extension_of_name(""), None);
}

#[test]
fn extension_of_name_counts_characters_not_bytes() {
    assert_eq!(extension_of_name("r\u{e9}sum\u{e9}.\u{e9}t\u{e9}"), text("\u{e9}t\u{e9}"));
    assert_eq!(stem_of_name("r\u{e9}sum\u{e9}.\u{e9}t\u{e9}"), "r\u{e9}sum\u{e9}");
}

#[test]
fn stem_of_name_precedes_the_last_dot() {
    assert_eq!(stem_of_name("clip.mp4"), "clip");
    assert_eq!(stem_of_name("archive.tar.gz"), "archive.tar");
    assert_eq!(stem_of_name("trailing."), "trailing");
    assert_eq!(stem_of_name("clip"), "clip");
    assert_eq!(stem_of_name(".bashrc"), ".bashrc");
    assert_eq!(stem_of_name(""), "");
}

#[test]
fn extension_reads_the_final_component() {
    assert_eq!(extension("/clips/holiday.mov"), text("mov"));
    assert_eq!(extension("/clips.d/holiday"), None);
    assert_eq!(extension("/clips/holiday.mov/"), text("mov"));
    assert_eq!(extension("relative/name.tar.gz"), text("gz"));
    assert_eq!(extension("/clips/.."), None);
    assert_eq!(extension("/"), None);
    assert_eq!(extension(""), None);
}

#[test]
fn extension_agrees_with_the_standard_library() {
    let samples = [
        "a.b", "a", ".a", "a.", "a.b.c", "/x/y.z", "x/.y.z", "x.y/z", "..", "../a.b/", "a..",
        "...", "x/./y.mp3", "x/y.mp3/.",
    ];
    for path in samples {
        let std_extension =
            std::path::Path::new(path).extension().map(|e| e.to_str().unwrap().to_string());
        assert_eq!(extension(path), std_extension, "extension of {:?}", path);
        let std_stem =
            std::path::Path::new(path).file_stem().map(|e| e.to_str().unwrap().to_string());
        assert_eq!(file_stem(path), std_stem, "stem of {:?}", path);
    }
}

#[test]
fn file_stem_reads_the_final_component() {
    assert_eq!(file_stem("/voice/chapter one.wav"), text("chapter one"));
    assert_eq!(file_stem("/voice/noext"), text("noext"));
    assert_eq!(file_stem("/voice/"), text("voice"));
    assert_eq!(file_stem("/"), None);
}
