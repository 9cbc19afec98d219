//! Transcription of narration by a worker behind an HTTP endpoint.
//!
//! The audio is posted to the worker, which answers with a JSON object. This
//! module reads that answer once it has been decoded.

use vstd::prelude::*;
use vstd::string::*;
use crate::text::{optional_text, some_or, text_or, texts};

verus! {

/// Where the worker listens.
#[derive(Debug)]
pub struct CloudflareConfig {
    pub worker_url: String,
}

impl View for CloudflareConfig {
    type V = Seq<char>;

    open spec fn view(&self) -> Seq<char> {
        self.worker_url@
    }
}

/// The worker's answer: whether it succeeded, the transcript as one text, the
/// same in segments, and what went wrong.
#[derive(Debug)]
pub struct WorkerResponse {
    pub success: bool,
    pub text: Option<String>,
    pub segments: Option<Vec<String>>,
    pub error: Option<String>,
}

/// A `WorkerResponse` as characters.
pub struct WorkerResponseView {
    pub success: bool,
    pub text: Option<Seq<char>>,
    pub segments: Option<Seq<Seq<char>>>,
    pub error: Option<Seq<char>>,
}

/// The characters of an optional list of strings.
pub open spec fn optional_texts(o: Option<Vec<String>>) -> Option<Seq<Seq<char>>> {
    match o {
        Some(list) => Some(texts(list@)),
        None => None,
    }
}

impl View for WorkerResponse {
    type V = WorkerResponseView;

    open spec fn view(&self) -> WorkerResponseView {
        WorkerResponseView {
            success: self.success,
            text: optional_text(self.text),
            segments: optional_texts(self.segments),
            error: optional_text(self.error),
        }
    }
}

/// The characters of an answer that is a list of strings or a message.
pub open spec fn transcript_text(r: Result<Vec<String>, String>) -> Result<
    Seq<Seq<char>>,
    Seq<char>,
> {
    match r {
        Ok(lines) => Ok(texts(lines@)),
        Err(message) => Err(message@),
    }
}

/// The segments of a successful answer, if it has any.
pub open spec fn usable_segments(response: WorkerResponseView) -> bool {
    response.segments is Some && response.segments->0.len() > 0
}

/// What a worker's answer amounts to. A successful one gives its segments if
/// it has any, else its text as a single segment, else nothing. A failed one
/// gives its error, or `Unknown error` where it names none.
pub open spec fn transcript_of(response: WorkerResponseView) -> Result<Seq<Seq<char>>, Seq<char>> {
    if !response.success {
        Err(some_or(response.error, "Unknown error"@))
    } else if usable_segments(response) {
        Ok(response.segments->0)
    } else if response.text is Some {
        Ok(seq![response.text->0])
    } else {
        Ok(Seq::empty())
    }
}

/// The message for an answer whose HTTP status is not a success.
pub open spec fn worker_error_of(status: Seq<char>, body: Seq<char>) -> Seq<char> {
    "Worker error ("@ + status + "): "@ + body
}

/// Reads the transcript, or the failure, out of the worker's answer.
pub fn transcript(response: WorkerResponse) -> (r: Result<Vec<String>, String>)
    ensures
        transcript_text(r) == transcript_of(response@),
{
    if response.success {
        if let Some(segments) = response.segments {
            if segments.len() > 0 {
                return Ok(segments);
            }
        }
        if let Some(text) = response.text {
            let mut lines: Vec<String> = Vec::new();
            lines.push(text);
            assert(texts(lines@) =~= seq![text@]);
            return Ok(lines);
        }
        let lines: Vec<String> = Vec::new();
        assert(texts(lines@) =~= Seq::<Seq<char>>::empty());
        Ok(lines)
    } else {
        Err(text_or(response.error, "Unknown error"))
    }
}

/// Writes the message for an answer whose HTTP status is not a success, from
/// the status line and the body that came with it.
pub fn worker_error(status: &str, body: &str) -> (r: String)
    ensures
        r@ == worker_error_of(status@, body@),
{
    let mut message = String::from_str("Worker error (");
    message.append(status);
    message.append("): ");
    message.append(body);
    message
}

/// A failed answer is an error whatever else it holds, and a successful one
/// never is.
pub proof fn lemma_transcript_fails_with_worker(response: WorkerResponseView)
    ensures
        transcript_of(response) is Err <==> !response.success,
        transcript_of(response) is Ok ==> transcript_of(response)->Ok_0.len() > 0
            || !usable_segments(response) && response.text is None,
{
}

} // verus!
