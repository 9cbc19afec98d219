use storyforge::cloudflare::{transcript, worker_error, CloudflareConfig, WorkerResponse};

fn response(
    success: bool,
    text: Option<&str>,
    segments: Option<Vec<&str>>,
    error: Option<&str>,
) -> WorkerResponse {
    WorkerResponse {
        success,
        text: text.map(|t| t.to_string()),
        segments: segments.map(|s| s.iter().map(|x| x.to_string()).collect()),
        error: error.map(|e| e.to_string()),
    }
}

#[test]
fn transcript_prefers_segments() {
    let r = response(true, Some("one two"), Some(vec!["one", "two"]), None);
    assert_eq!(transcript(r), Ok(vec!["one".to_string(), "two".to_string()]));
}

#[test]
fn transcript_falls_back_to_the_text() {
    assert_eq!(
        transcript(response(true, Some("one two"), Some(vec![]), None)),
        Ok(vec!["one two".to_string()])
    );
    assert_eq!(
        transcript(response(true, Some("one two"), None, None)),
        Ok(vec!["one two".to_string()])
    );
    assert_eq!(transcript(response(true, Some(""), None, None)), Ok(vec!["".to_string()]));
}

#[test]
fn transcript_may_be_empty() {
    assert_eq!(transcript(response(true, None, None, None)), Ok(vec![]));
    assert_eq!(transcript(response(true, None, Some(vec![]), Some("ignored"))), Ok(vec![]));
}

#[test]
fn transcript_reports_the_workers_error() {
    assert_eq!(
        transcript(response(false, Some("t"), Some(vec!["s"]), Some("model overloaded"))),
        Err("model overloaded".to_string())
    );
    assert_eq!(transcript(response(false, None, None, None)), Err("Unknown error".to_string()));
}

#[test]
fn worker_error_names_status_and_body() {
    assert_eq!(
        worker_error("502 Bad Gateway", "upstream timed out"),
        "Worker error (502 Bad Gateway): upstream timed out"
    );
    assert_eq!(worker_error("404 Not Found", ""), "Worker error (404 Not Found): ");
}

#[test]
fn config_holds_the_worker_url() {
    let config = CloudflareConfig { worker_url: "https://w.example.workers.dev".to_string() };
    assert_eq!(config.worker_url, "https://w.example.workers.dev");
}
