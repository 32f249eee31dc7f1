use gguf_launcher::acquire::{
    acquire, filename_from_segments, filename_from_url, is_url, AcquireError, Acquisition,
    ModelReference, Transfer,
};

fn segments(parts: &[&str]) -> Option<Vec<String>> {
    Some(parts.iter().map(|s| s.to_string()).collect())
}

#[test]
fn filename_is_the_last_segment() {
    assert_eq!(
        filename_from_segments(segments(&["path", "model-file.Q4.gguf"])),
        Ok("model-file.Q4.gguf".to_string())
    );
    assert_eq!(filename_from_segments(segments(&["m.gguf"])), Ok("m.gguf".to_string()));
    assert_eq!(filename_from_segments(segments(&["", "", "x"])), Ok("x".to_string()));
}

#[test]
fn empty_last_segment_names_no_file() {
    assert_eq!(filename_from_segments(segments(&["path", ""])), Err(AcquireError::NoFilenameInUrl));
    assert_eq!(filename_from_segments(segments(&[""])), Err(AcquireError::NoFilenameInUrl));
}

#[test]
fn missing_segments_name_no_file() {
    assert_eq!(filename_from_segments(None), Err(AcquireError::NoFilenameInUrl));
    assert_eq!(filename_from_segments(segments(&[])), Err(AcquireError::NoFilenameInUrl));
}

#[test]
fn filename_from_response_url() {
    assert_eq!(
        filename_from_url("https://host/path/model-file.Q4.gguf"),
        Ok("model-file.Q4.gguf".to_string())
    );
    assert_eq!(
        filename_from_url(
            "https://huggingface.co/second-state/Llama-2-7B-Chat-GGUF/resolve/main/llama-2-7b-chat.Q5_K_M.gguf"
        ),
        Ok("llama-2-7b-chat.Q5_K_M.gguf".to_string())
    );
}

#[test]
fn filename_leaves_out_query_and_fragment() {
    assert_eq!(
        filename_from_url("https://host/a/b/m.gguf?download=true#top"),
        Ok("m.gguf".to_string())
    );
}

#[test]
fn filename_keeps_percent_encoding() {
    assert_eq!(
        filename_from_url("https://example.com/countries/việt nam"),
        Ok("vi%E1%BB%87t%20nam".to_string())
    );
}

#[test]
fn url_that_ends_in_a_slash_names_no_file() {
    assert_eq!(filename_from_url("https://host/path/"), Err(AcquireError::NoFilenameInUrl));
}

#[test]
fn url_without_a_path_names_no_file() {
    assert_eq!(filename_from_url("https://host"), Err(AcquireError::NoFilenameInUrl));
    assert_eq!(filename_from_url("https://host/"), Err(AcquireError::NoFilenameInUrl));
}

#[test]
fn url_that_cannot_be_a_base_names_no_file() {
    assert_eq!(filename_from_url("data:text/plain,HelloWorld"), Err(AcquireError::NoFilenameInUrl));
}

#[test]
fn text_that_is_no_url_is_invalid() {
    assert_eq!(filename_from_url("not a url"), Err(AcquireError::InvalidUrl));
    assert_eq!(filename_from_url(""), Err(AcquireError::InvalidUrl));
    assert_eq!(filename_from_url("model.gguf"), Err(AcquireError::InvalidUrl));
    assert_eq!(filename_from_url("/path/model.gguf"), Err(AcquireError::InvalidUrl));
}

#[test]
fn urls_are_told_from_other_text() {
    assert!(is_url("https://host/path/model.gguf"));
    assert!(is_url("http://127.0.0.1:8080/"));
    assert!(is_url("data:text/plain,HelloWorld"));
    assert!(!is_url("host/path/model.gguf"));
    assert!(!is_url("https://"));
    assert!(!is_url(""));
}

#[test]
fn local_path_is_acquired_unchanged() {
    assert_eq!(
        acquire(ModelReference::Local("models/m.gguf".to_string())),
        Acquisition::Acquired("models/m.gguf".to_string())
    );
    assert_eq!(
        acquire(ModelReference::Local("no such file".to_string())),
        Acquisition::Acquired("no such file".to_string())
    );
    assert_eq!(acquire(ModelReference::Local(String::new())), Acquisition::Acquired(String::new()));
}

#[test]
fn remote_url_is_to_be_fetched() {
    assert_eq!(
        acquire(ModelReference::Remote("https://host/path/m.gguf".to_string())),
        Acquisition::Fetching { url: "https://host/path/m.gguf".to_string() }
    );
}

#[test]
fn remote_text_that_is_no_url_fails_at_once() {
    assert_eq!(
        acquire(ModelReference::Remote("m.gguf".to_string())),
        Acquisition::Failed(AcquireError::InvalidUrl)
    );
}

#[test]
fn download_runs_from_request_to_file() {
    let state = acquire(ModelReference::Remote("https://host/latest".to_string()));
    let state = state.advance(Transfer::Responded {
        final_url: "https://cdn.host/path/model-file.Q4.gguf".to_string(),
    });
    assert_eq!(state, Acquisition::Storing { filename: "model-file.Q4.gguf".to_string() });
    let state = state.advance(Transfer::Stored);
    assert_eq!(state, Acquisition::Acquired("model-file.Q4.gguf".to_string()));
    assert_eq!(state.outcome(), Some(Ok("model-file.Q4.gguf".to_string())));
}

#[test]
fn response_without_a_filename_stores_nothing() {
    let state = acquire(ModelReference::Remote("https://host/path/".to_string()));
    assert_eq!(state, Acquisition::Fetching { url: "https://host/path/".to_string() });
    let state = state.advance(Transfer::Responded { final_url: "https://host/path/".to_string() });
    assert_eq!(state, Acquisition::Failed(AcquireError::NoFilenameInUrl));
    let state = state.advance(Transfer::Stored);
    assert_eq!(state, Acquisition::Failed(AcquireError::NoFilenameInUrl));
    assert_eq!(state.outcome(), Some(Err(AcquireError::NoFilenameInUrl)));
}

#[test]
fn failed_request_is_a_failed_download() {
    let state = acquire(ModelReference::Remote("https://host/m.gguf".to_string()));
    let state = state.advance(Transfer::RequestFailed { cause: "connection refused".to_string() });
    assert_eq!(
        state,
        Acquisition::Failed(AcquireError::DownloadFailed("connection refused".to_string()))
    );
}

#[test]
fn failed_storing_is_a_failed_download() {
    let state = Acquisition::Storing { filename: "m.gguf".to_string() };
    let state = state.advance(Transfer::StoreFailed { cause: "disk full".to_string() });
    assert_eq!(state, Acquisition::Failed(AcquireError::DownloadFailed("disk full".to_string())));
}

#[test]
fn reports_that_answer_nothing_are_passed_over() {
    let fetching = Acquisition::Fetching { url: "https://host/m.gguf".to_string() };
    assert_eq!(fetching.clone().advance(Transfer::Stored), fetching);
    assert_eq!(
        fetching.clone().advance(Transfer::StoreFailed { cause: "x".to_string() }),
        fetching
    );
    let storing = Acquisition::Storing { filename: "m.gguf".to_string() };
    assert_eq!(
        storing.clone().advance(Transfer::Responded { final_url: "https://host/n.gguf".to_string() }),
        storing
    );
    assert_eq!(
        storing.clone().advance(Transfer::RequestFailed { cause: "x".to_string() }),
        storing
    );
}

#[test]
fn finished_acquisition_stays_as_it_is() {
    let done = Acquisition::Acquired("m.gguf".to_string());
    assert_eq!(done.clone().advance(Transfer::Stored), done);
    assert_eq!(
        done.clone().advance(Transfer::Responded { final_url: "https://host/n.gguf".to_string() }),
        done
    );
    let failed = Acquisition::Failed(AcquireError::InvalidUrl);
    assert_eq!(failed.clone().advance(Transfer::Stored), failed);
}

#[test]
fn unfinished_acquisition_has_no_outcome() {
    assert_eq!(Acquisition::Fetching { url: "https://host/m.gguf".to_string() }.outcome(), None);
    assert_eq!(Acquisition::Storing { filename: "m.gguf".to_string() }.outcome(), None);
}
