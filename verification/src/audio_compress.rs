//! Shrinking narration for speech recognition: mono, 16 kHz, 32 kbit/s MP3,
//! written beside the input.

use vstd::prelude::*;
use vstd::string::*;
use crate::command::{Invocation, InvocationView};
use crate::paths;
use crate::paths::{join_of, parent_of, stem_of};
use crate::text::{no_texts, push_text, result_text, some_or, text_or, texts};

verus! {

/// What is appended to the input's stem to name the compressed file.
pub const COMPRESSED_SUFFIX: &'static str = "_compressed.mp3";

/// The name of the compressed file of an input with the stem `stem`.
pub open spec fn compressed_name_of(stem: Seq<char>) -> Seq<char> {
    stem + COMPRESSED_SUFFIX@
}

/// Where the compressed file of `input` goes: into the input's folder, or the
/// current one where the input has none, under the input's stem with
/// `COMPRESSED_SUFFIX`.
pub open spec fn compressed_path_of(input: Seq<char>) -> Seq<char> {
    join_of(
        some_or(parent_of(input), "."@),
        compressed_name_of(some_or(stem_of(input), Seq::empty())),
    )
}

/// The arguments with which `ffmpeg` compresses `input` into `output`,
/// overwriting it.
pub open spec fn compress_command_of(input: Seq<char>, output: Seq<char>) -> InvocationView {
    InvocationView {
        program: "ffmpeg"@,
        arguments: seq![
            "-i"@,
            input,
            "-ar"@,
            "16000"@,
            "-ac"@,
            "1"@,
            "-b:a"@,
            "32k"@,
            "-y"@,
            output,
        ],
    }
}

/// What compression answers once `ffmpeg` has run.
pub open spec fn compress_outcome_of(succeeded: bool, output: Seq<char>) -> Result<
    Seq<char>,
    Seq<char>,
> {
    if succeeded {
        Ok(output)
    } else {
        Err("FFmpeg compression failed"@)
    }
}

/// Names the compressed file of an input with the stem `stem`.
pub fn compressed_name(stem: &str) -> (r: String)
    ensures
        r@ == compressed_name_of(stem@),
{
    let mut name = String::from_str(stem);
    name.append(COMPRESSED_SUFFIX);
    name
}

/// Says where the compressed file of `input_path` goes.
pub fn compressed_path(input_path: &str) -> (r: String)
    ensures
        r@ == compressed_path_of(input_path@),
{
    let folder = text_or(paths::parent(input_path), ".");
    let stem = text_or(paths::file_stem(input_path), "");
    proof {
        reveal_strlit("");
        assert(""@ =~= Seq::<char>::empty());
    }
    let name = compressed_name(stem.as_str());
    paths::join(folder.as_str(), name.as_str())
}

/// Says how to have `ffmpeg` compress `input_path` into `output_path`.
pub fn compress_command(input_path: &str, output_path: &str) -> (r: Invocation)
    ensures
        r@ == compress_command_of(input_path@, output_path@),
{
    let mut arguments = no_texts();
    push_text(&mut arguments, "-i");
    push_text(&mut arguments, input_path);
    push_text(&mut arguments, "-ar");
    push_text(&mut arguments, "16000");
    push_text(&mut arguments, "-ac");
    push_text(&mut arguments, "1");
    push_text(&mut arguments, "-b:a");
    push_text(&mut arguments, "32k");
    push_text(&mut arguments, "-y");
    push_text(&mut arguments, output_path);
    assert(texts(arguments@) =~= compress_command_of(input_path@, output_path@).arguments);
    Invocation { program: String::from_str("ffmpeg"), arguments }
}

/// Turns whether `ffmpeg` succeeded into the answer: the path of the
/// compressed file, or the failure.
pub fn compress_outcome(succeeded: bool, output_path: String) -> (r: Result<String, String>)
    ensures
        result_text(r) == compress_outcome_of(succeeded, output_path@),
{
    if succeeded {
        Ok(output_path)
    } else {
        Err(String::from_str("FFmpeg compression failed"))
    }
}

} // verus!
