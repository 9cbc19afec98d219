//! Joining video clips into one file with `ffmpeg`'s concat demuxer.
//!
//! The clips are copied stream by stream, not re-encoded, so the output takes
//! its streams from the first clip. A clip without audio may therefore follow
//! clips with audio, but none may precede one: this module checks that order,
//! writes the list of clips that `ffmpeg` reads, and says what to run.

use vstd::prelude::*;
use vstd::string::*;
use crate::command::{Invocation, InvocationView};
use crate::paths;
use crate::paths::{file_name_of, join_of};
use crate::text::{
    no_texts, push_text, replace_char, replaced, result_text, some_or, text_or, texts,
};

verus! {

/// What probing one clip found: the name to show for it, and whether it has
/// an audio stream.
#[derive(Debug, Clone)]
pub struct ClipAudio {
    pub name: String,
    pub has_audio: bool,
}

/// A `ClipAudio` as characters.
pub struct ClipAudioView {
    pub name: Seq<char>,
    pub has_audio: bool,
}

impl View for ClipAudio {
    type V = ClipAudioView;

    open spec fn view(&self) -> ClipAudioView {
        ClipAudioView { name: self.name@, has_audio: self.has_audio }
    }
}

/// The views of the clips of `v`, in order.
pub open spec fn clip_views(v: Seq<ClipAudio>) -> Seq<ClipAudioView> {
    v.map_values(|c: ClipAudio| c@)
}

/// The name of the file that the list of clips is written to.
pub const LIST_FILE_NAME: &'static str = "clipforge_concat_list.txt";

/// How the message about clips in the wrong order begins.
pub const MISMATCH_HEAD: &'static str =
    "\u{26a0}\u{fe0f} Audio stream mismatch detected!\n\nSome clips have audio and some don't:\n\nWITH audio:\n";

/// What stands between the clips with audio and those without.
pub const MISMATCH_MIDDLE: &'static str = "\nWITHOUT audio:\n";

/// How the message about clips in the wrong order ends.
pub const MISMATCH_TAIL: &'static str =
    "\n\u{1f4a1} Solution: Place ALL clips WITH audio first, then clips without audio.\nUse the \u{25b2}\u{25bc} buttons to reorder.";

/// What precedes the name of a clip with audio in the message.
pub const WITH_AUDIO_MARK: &'static str = "  \u{2713} ";

/// What precedes the name of a clip without audio in the message.
pub const WITHOUT_AUDIO_MARK: &'static str = "  \u{2717} ";

/// The arguments with which `ffprobe` prints the type of the first audio
/// stream of `clip`, and nothing where the clip has none.
pub open spec fn audio_probe_of(clip: Seq<char>) -> InvocationView {
    InvocationView {
        program: "ffprobe"@,
        arguments: seq![
            "-v"@,
            "error"@,
            "-select_streams"@,
            "a:0"@,
            "-show_entries"@,
            "stream=codec_type"@,
            "-of"@,
            "csv=p=0"@,
            clip,
        ],
    }
}

/// The arguments with which `ffprobe` prints the duration of `path` in
/// seconds.
pub open spec fn duration_probe_of(path: Seq<char>) -> InvocationView {
    InvocationView {
        program: "ffprobe"@,
        arguments: seq![
            "-v"@,
            "error"@,
            "-show_entries"@,
            "format=duration"@,
            "-of"@,
            "default=noprint_wrappers=1:nokey=1"@,
            path,
        ],
    }
}

/// The arguments with which `ffmpeg` copies the clips listed in `list_path`
/// into `output_path`.
pub open spec fn concat_command_of(list_path: Seq<char>, output_path: Seq<char>) -> InvocationView {
    InvocationView {
        program: "ffmpeg"@,
        arguments: seq![
            "-f"@,
            "concat"@,
            "-safe"@,
            "0"@,
            "-i"@,
            list_path,
            "-c"@,
            "copy"@,
            output_path,
        ],
    }
}

/// The name shown for the clip at `path`: its file name, or the whole path
/// where it has none.
pub open spec fn clip_name_of(path: Seq<char>) -> Seq<char> {
    some_or(file_name_of(path), path)
}

/// A clip without audio stands somewhere before a clip with audio.
pub open spec fn out_of_order(clips: Seq<ClipAudioView>) -> bool {
    exists|i: int, j: int|
        #![trigger clips[i], clips[j]]
        0 <= i < j < clips.len() && !clips[i].has_audio && clips[j].has_audio
}

/// The first `k` clips have audio and the rest have none.
pub open spec fn audio_up_to(clips: Seq<ClipAudioView>, k: int) -> bool {
    &&& 0 <= k <= clips.len()
    &&& forall|i: int| 0 <= i < k ==> (#[trigger] clips[i]).has_audio
    &&& forall|i: int| k <= i < clips.len() ==> !(#[trigger] clips[i]).has_audio
}

/// The clips are in order exactly if those with audio come first: some
/// number of clips with audio, then only clips without.
pub proof fn lemma_in_order_iff_audio_first(clips: Seq<ClipAudioView>)
    ensures
        !out_of_order(clips) <==> exists|k: int| audio_up_to(clips, k),
    decreases clips.len(),
{
    if exists|k: int| audio_up_to(clips, k) {
        let k = choose|k: int| audio_up_to(clips, k);
        if out_of_order(clips) {
            let (i, j) = choose|i: int, j: int|
                #![trigger clips[i], clips[j]]
                0 <= i < j < clips.len() && !clips[i].has_audio && clips[j].has_audio;
            assert(i >= k);
            assert(!clips[j].has_audio);
        }
    }
    if !out_of_order(clips) {
        if clips.len() == 0 {
            assert(audio_up_to(clips, 0));
        } else {
            let earlier = clips.drop_last();
            let last = clips.len() - 1;
            if out_of_order(earlier) {
                let (i, j) = choose|i: int, j: int|
                    #![trigger earlier[i], earlier[j]]
                    0 <= i < j < earlier.len() && !earlier[i].has_audio && earlier[j].has_audio;
                assert(!clips[i].has_audio && clips[j].has_audio);
            }
            lemma_in_order_iff_audio_first(earlier);
            let k = choose|k: int| audio_up_to(earlier, k);
            if clips[last].has_audio {
                assert forall|i: int| 0 <= i < clips.len() implies (#[trigger] clips[i]).has_audio by {
                    if i < last && !clips[i].has_audio {
                        assert(!clips[i].has_audio && clips[last].has_audio);
                    }
                }
                assert(audio_up_to(clips, clips.len() as int));
            } else {
                assert forall|i: int| 0 <= i < k implies (#[trigger] clips[i]).has_audio by {
                    assert(earlier[i].has_audio);
                }
                assert forall|i: int| k <= i < clips.len() implies !(#[trigger] clips[i]).has_audio by {
                    if i < last {
                        assert(!earlier[i].has_audio);
                    }
                }
                assert(audio_up_to(clips, k));
            }
        }
    }
}

/// One line, `mark` and name, for each clip of `clips` whose `has_audio` is
/// `wanted`, in the order of the clips.
pub open spec fn listing(clips: Seq<ClipAudioView>, wanted: bool, mark: Seq<char>) -> Seq<char>
    decreases clips.len(),
{
    if clips.len() == 0 {
        Seq::empty()
    } else if clips.last().has_audio == wanted {
        listing(clips.drop_last(), wanted, mark) + mark + clips.last().name + "\n"@
    } else {
        listing(clips.drop_last(), wanted, mark)
    }
}

/// The message that tells the user which clips have audio and which have
/// none, and to put the former first.
pub open spec fn mismatch_message(clips: Seq<ClipAudioView>) -> Seq<char> {
    MISMATCH_HEAD@ + listing(clips, true, WITH_AUDIO_MARK@) + MISMATCH_MIDDLE@ + listing(
        clips,
        false,
        WITHOUT_AUDIO_MARK@,
    ) + MISMATCH_TAIL@
}

/// One line for each clip, in the form the concat demuxer reads: the path in
/// single quotes after the word `file`, with `/` for every `\`.
pub open spec fn concat_list_of(clips: Seq<Seq<char>>) -> Seq<char>
    decreases clips.len(),
{
    if clips.len() == 0 {
        Seq::empty()
    } else {
        concat_list_of(clips.drop_last()) + "file '"@ + replaced(clips.last(), '\\', '/') + "'\n"@
    }
}

/// What `concat_videos` answers once `ffmpeg` has run.
pub open spec fn concat_outcome_of(
    succeeded: bool,
    errors: Seq<char>,
    output_path: Seq<char>,
) -> Result<Seq<char>, Seq<char>> {
    if succeeded {
        Ok("Successfully created: "@ + output_path)
    } else {
        Err("FFmpeg error: "@ + errors)
    }
}

/// Says how to ask `ffprobe` whether `clip` has an audio stream. It prints
/// one line if so and nothing if not.
pub fn audio_probe(clip: &str) -> (r: Invocation)
    ensures
        r@ == audio_probe_of(clip@),
{
    let mut arguments = no_texts();
    push_text(&mut arguments, "-v");
    push_text(&mut arguments, "error");
    push_text(&mut arguments, "-select_streams");
    push_text(&mut arguments, "a:0");
    push_text(&mut arguments, "-show_entries");
    push_text(&mut arguments, "stream=codec_type");
    push_text(&mut arguments, "-of");
    push_text(&mut arguments, "csv=p=0");
    push_text(&mut arguments, clip);
    assert(texts(arguments@) =~= audio_probe_of(clip@).arguments);
    Invocation { program: String::from_str("ffprobe"), arguments }
}

/// Says how to ask `ffprobe` for the duration of the file at `path`.
pub fn duration_probe(path: &str) -> (r: Invocation)
    ensures
        r@ == duration_probe_of(path@),
{
    let mut arguments = no_texts();
    push_text(&mut arguments, "-v");
    push_text(&mut arguments, "error");
    push_text(&mut arguments, "-show_entries");
    push_text(&mut arguments, "format=duration");
    push_text(&mut arguments, "-of");
    push_text(&mut arguments, "default=noprint_wrappers=1:nokey=1");
    push_text(&mut arguments, path);
    assert(texts(arguments@) =~= duration_probe_of(path@).arguments);
    Invocation { program: String::from_str("ffprobe"), arguments }
}

/// Says how to have `ffmpeg` join the clips listed in `list_path` into
/// `output_path`.
pub fn concat_command(list_path: &str, output_path: &str) -> (r: Invocation)
    ensures
        r@ == concat_command_of(list_path@, output_path@),
{
    let mut arguments = no_texts();
    push_text(&mut arguments, "-f");
    push_text(&mut arguments, "concat");
    push_text(&mut arguments, "-safe");
    push_text(&mut arguments, "0");
    push_text(&mut arguments, "-i");
    push_text(&mut arguments, list_path);
    push_text(&mut arguments, "-c");
    push_text(&mut arguments, "copy");
    push_text(&mut arguments, output_path);
    assert(texts(arguments@) =~= concat_command_of(list_path@, output_path@).arguments);
    Invocation { program: String::from_str("ffmpeg"), arguments }
}

/// Where the list of clips is written: `LIST_FILE_NAME` in `temp_dir`.
pub fn list_path(temp_dir: &str) -> (r: String)
    ensures
        r@ == join_of(temp_dir@, LIST_FILE_NAME@),
{
    paths::join(temp_dir, LIST_FILE_NAME)
}

/// The name to show for the clip at `path`.
pub fn clip_name(path: &str) -> (r: String)
    ensures
        r@ == clip_name_of(path@),
{
    text_or(paths::file_name(path), path)
}

/// Records what the audio probe of the clip at `path` printed: the clip has
/// audio exactly if it printed anything.
pub fn clip_audio(path: &str, probe_output: &Vec<u8>) -> (r: ClipAudio)
    ensures
        r@.name == clip_name_of(path@),
        r@.has_audio == (probe_output@.len() > 0),
{
    ClipAudio { name: clip_name(path), has_audio: probe_output.len() > 0 }
}

/// The position of the first clip without audio.
pub fn first_without_audio(clips: &Vec<ClipAudio>) -> (r: Option<usize>)
    ensures
        match r {
            Some(i) => i < clips.len() && !clips[i as int].has_audio && forall|k: int|
                0 <= k < i ==> clips[k].has_audio,
            None => forall|k: int| 0 <= k < clips.len() ==> clips[k].has_audio,
        },
{
    let mut i: usize = 0;
    while i < clips.len()
        invariant
            i <= clips.len(),
            forall|k: int| 0 <= k < i ==> clips[k].has_audio,
        decreases clips.len() - i,
    {
        if !clips[i].has_audio {
            return Some(i);
        }
        i += 1;
    }
    None
}

/// The position of the last clip with audio.
pub fn last_with_audio(clips: &Vec<ClipAudio>) -> (r: Option<usize>)
    ensures
        match r {
            Some(j) => j < clips.len() && clips[j as int].has_audio && forall|k: int|
                j < k < clips.len() ==> !clips[k].has_audio,
            None => forall|k: int| 0 <= k < clips.len() ==> !clips[k].has_audio,
        },
{
    let mut i: usize = clips.len();
    while i > 0
        invariant
            i <= clips.len(),
            forall|k: int| i <= k < clips.len() ==> !clips[k].has_audio,
        decreases i,
    {
        i -= 1;
        if clips[i].has_audio {
            return Some(i);
        }
    }
    None
}

/// Writes one line, `mark` and name, for each clip whose `has_audio` is
/// `wanted`.
pub fn list_clips(clips: &Vec<ClipAudio>, wanted: bool, mark: &str) -> (r: String)
    ensures
        r@ == listing(clip_views(clips@), wanted, mark@),
{
    let ghost all = clip_views(clips@);
    let mut out = String::new();
    let mut i: usize = 0;
    while i < clips.len()
        invariant
            i <= clips.len(),
            all == clip_views(clips@),
            out@ == listing(all.take(i as int), wanted, mark@),
        decreases clips.len() - i,
    {
        proof {
            let next = all.take(i + 1);
            assert(next.drop_last() == all.take(i as int));
            assert(next.last() == clips[i as int]@);
        }
        if clips[i].has_audio == wanted {
            out.append(mark);
            out.append(clips[i].name.as_str());
            out.append("\n");
        }
        i += 1;
    }
    assert(all.take(i as int) == all);
    out
}

/// Writes the message about clips in the wrong order.
pub fn audio_mismatch_message(clips: &Vec<ClipAudio>) -> (r: String)
    ensures
        r@ == mismatch_message(clip_views(clips@)),
{
    let mut out = String::from_str(MISMATCH_HEAD);
    out.append(list_clips(clips, true, WITH_AUDIO_MARK).as_str());
    out.append(MISMATCH_MIDDLE);
    out.append(list_clips(clips, false, WITHOUT_AUDIO_MARK).as_str());
    out.append(MISMATCH_TAIL);
    out
}

/// Accepts the clips if every clip with audio stands before every clip
/// without, and otherwise answers with the message for the user.
pub fn check_audio_order(clips: &Vec<ClipAudio>) -> (r: Result<(), String>)
    ensures
        match r {
            Ok(_) => !out_of_order(clip_views(clips@)),
            Err(message) => out_of_order(clip_views(clips@)) && message@ == mismatch_message(
                clip_views(clips@),
            ),
        },
{
    let ghost views = clip_views(clips@);
    let first_without = first_without_audio(clips);
    let last_with = last_with_audio(clips);
    let misplaced = match (first_without, last_with) {
        (Some(i), Some(j)) => i < j,
        _ => false,
    };
    proof {
        if misplaced {
            let i = first_without->0 as int;
            let j = last_with->0 as int;
            assert(!views[i].has_audio && views[j].has_audio);
        } else if out_of_order(views) {
            let (a, b) = choose|a: int, b: int|
                #![trigger views[a], views[b]]
                0 <= a < b < views.len() && !views[a].has_audio && views[b].has_audio;
            assert(views[a] == clips[a]@);
            assert(views[b] == clips[b]@);
        }
    }
    if misplaced {
        Err(audio_mismatch_message(clips))
    } else {
        Ok(())
    }
}

/// Writes the list of clips for the concat demuxer.
pub fn concat_list(clips: &Vec<String>) -> (r: String)
    ensures
        r@ == concat_list_of(texts(clips@)),
{
    let ghost all = texts(clips@);
    let mut out = String::new();
    let mut i: usize = 0;
    while i < clips.len()
        invariant
            i <= clips.len(),
            all == texts(clips@),
            out@ == concat_list_of(all.take(i as int)),
        decreases clips.len() - i,
    {
        proof {
            let next = all.take(i + 1);
            assert(next.drop_last() == all.take(i as int));
            assert(next.last() == clips[i as int]@);
        }
        out.append("file '");
        out.append(replace_char(clips[i].as_str(), '\\', '/').as_str());
        out.append("'\n");
        i += 1;
    }
    assert(all.take(i as int) == all);
    out
}

/// Turns what `ffmpeg` reported into the answer for the user: the output path
/// on success, and what `ffmpeg` wrote to its error stream otherwise.
pub fn concat_outcome(succeeded: bool, errors: &str, output_path: &str) -> (r: Result<
    String,
    String,
>)
    ensures
        result_text(r) == concat_outcome_of(succeeded, errors@, output_path@),
{
    if succeeded {
        let mut message = String::from_str("Successfully created: ");
        message.append(output_path);
        Ok(message)
    } else {
        let mut message = String::from_str("FFmpeg error: ");
        message.append(errors);
        Err(message)
    }
}

/// The paths that a file dialog returned, or none where it was dismissed.
pub fn chosen_paths(picked: Option<Vec<String>>) -> (r: Vec<String>)
    ensures
        match picked {
            Some(paths) => r == paths,
            None => r@.len() == 0,
        },
{
    match picked {
        Some(paths) => paths,
        None => Vec::new(),
    }
}

} // verus!
