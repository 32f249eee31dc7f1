use gguf_launcher::acquire::{AcquireError, Acquisition, Transfer};
use gguf_launcher::cache::{DirectoryEntry, DirectoryListing};
use gguf_launcher::resolver::{Reply, Request, Resolution, ResolveError, ResolvedSelection};
use gguf_launcher::template::{listed_ids, PromptTemplateType};

const HINT: &str = "Or choose one from: https://huggingface.co/second-state?sort_models=modified#models or https://huggingface.co/models?sort=trending&search=gguf";

fn listing(names: &[&str]) -> Reply {
    Reply::Listed(DirectoryListing::Entries(
        names.iter().map(|n| DirectoryEntry::File(n.to_string())).collect(),
    ))
}

fn choosing(names: &[&str]) -> Resolution {
    Resolution::ChoosingModel { cached: names.iter().map(|n| n.to_string()).collect() }
}

fn template_menu() -> Request {
    Request::Choose {
        prompt: "Select a prompt template".to_string(),
        options: listed_ids(),
        default_index: 0,
    }
}

#[test]
fn named_model_skips_discovery() {
    let state = Resolution::start(Some("my-model.gguf".to_string()), None);
    assert_eq!(state, Resolution::ChoosingTemplate { model_path: "my-model.gguf".to_string() });
    assert_eq!(state.request(), Some(template_menu()));
}

#[test]
fn named_model_is_taken_as_it_is() {
    let state = Resolution::start(Some("https://host/m.gguf".to_string()), None);
    let state = state.advance(Reply::Chosen(Some(9)));
    assert_eq!(
        state.outcome(),
        Some(Ok(ResolvedSelection {
            model_path: "https://host/m.gguf".to_string(),
            template: PromptTemplateType::ChatML,
        }))
    );
}

#[test]
fn template_named_beforehand_does_not_replace_the_choice() {
    let state = Resolution::start(Some("m.gguf".to_string()), Some(PromptTemplateType::Zephyr));
    assert_eq!(state, Resolution::ChoosingTemplate { model_path: "m.gguf".to_string() });
    assert_eq!(state.request(), Some(template_menu()));
    let state = state.advance(Reply::Chosen(Some(0)));
    assert_eq!(
        state,
        Resolution::Resolved(ResolvedSelection {
            model_path: "m.gguf".to_string(),
            template: PromptTemplateType::Llama2Chat,
        })
    );
}

#[test]
fn without_a_model_the_directory_is_listed() {
    let state = Resolution::start(None, None);
    assert_eq!(state, Resolution::Scanning);
    assert_eq!(state.request(), Some(Request::ListDirectory));
}

#[test]
fn unreadable_directory_ends_the_resolution() {
    let state = Resolution::start(None, None).advance(Reply::Listed(DirectoryListing::Unreadable));
    assert_eq!(state, Resolution::Failed(ResolveError::DirectoryUnreadable));
    assert_eq!(state.request(), None);
    assert_eq!(state.outcome(), Some(Err(ResolveError::DirectoryUnreadable)));
}

#[test]
fn nothing_cached_asks_for_a_url() {
    let state = Resolution::start(None, None).advance(listing(&["notes.txt", "b.GGUF"]));
    assert_eq!(state, Resolution::EnteringUrl);
    assert_eq!(state.request(), Some(Request::Input { prompt: "Enter the model url".to_string() }));
}

#[test]
fn empty_directory_asks_for_a_url() {
    let state = Resolution::start(None, None).advance(listing(&[]));
    assert_eq!(state, Resolution::EnteringUrl);
}

#[test]
fn cached_models_are_offered_with_the_hint_last() {
    let state = Resolution::start(None, None).advance(listing(&["b.gguf", "x.txt", "a.gguf"]));
    assert_eq!(state, choosing(&["b.gguf", "a.gguf"]));
    assert_eq!(
        state.request(),
        Some(Request::Choose {
            prompt: "Select a cached model".to_string(),
            options: vec!["b.gguf".to_string(), "a.gguf".to_string(), HINT.to_string()],
            default_index: 0,
        })
    );
}

#[test]
fn chosen_cached_model_is_the_model() {
    let state = choosing(&["b.gguf", "a.gguf"]).advance(Reply::Chosen(Some(1)));
    assert_eq!(state, Resolution::ChoosingTemplate { model_path: "a.gguf".to_string() });
}

#[test]
fn choosing_the_hint_asks_for_a_url() {
    let state = choosing(&["b.gguf", "a.gguf"]).advance(Reply::Chosen(Some(2)));
    assert_eq!(state, Resolution::EnteringUrl);
}

#[test]
fn choice_past_the_cached_models_asks_for_a_url() {
    let state = choosing(&["b.gguf"]).advance(Reply::Chosen(Some(7)));
    assert_eq!(state, Resolution::EnteringUrl);
}

#[test]
fn cancelled_model_choice_ends_the_resolution() {
    let state = choosing(&["b.gguf", "a.gguf"]).advance(Reply::Chosen(None));
    assert_eq!(state, Resolution::Failed(ResolveError::ModelSelectionCancelled));
    assert_eq!(state.request(), None);
    let state = state.advance(Reply::Entered("https://host/m.gguf".to_string()));
    assert_eq!(state, Resolution::Failed(ResolveError::ModelSelectionCancelled));
    assert_eq!(state.request(), None);
    assert_eq!(state.outcome(), Some(Err(ResolveError::ModelSelectionCancelled)));
}

#[test]
fn cancelled_template_choice_ends_the_resolution() {
    let state = Resolution::ChoosingTemplate { model_path: "m.gguf".to_string() }
        .advance(Reply::Chosen(None));
    assert_eq!(state, Resolution::Failed(ResolveError::TemplateSelectionCancelled));
    assert_eq!(state.outcome(), Some(Err(ResolveError::TemplateSelectionCancelled)));
}

#[test]
fn entered_url_is_fetched() {
    let state = Resolution::EnteringUrl.advance(Reply::Entered("https://host/m.gguf".to_string()));
    assert_eq!(
        state,
        Resolution::Acquiring(Acquisition::Fetching { url: "https://host/m.gguf".to_string() })
    );
    assert_eq!(state.request(), Some(Request::Fetch { url: "https://host/m.gguf".to_string() }));
}

#[test]
fn entered_text_that_is_no_url_ends_the_resolution() {
    let state = Resolution::EnteringUrl.advance(Reply::Entered("m.gguf".to_string()));
    assert_eq!(state, Resolution::Failed(ResolveError::Acquire(AcquireError::InvalidUrl)));
    assert_eq!(state.request(), None);
}

#[test]
fn response_names_the_file_to_store() {
    let state = Resolution::EnteringUrl
        .advance(Reply::Entered("https://host/latest".to_string()))
        .advance(Reply::Transferred(Transfer::Responded {
            final_url: "https://host/path/model-file.Q4.gguf".to_string(),
        }));
    assert_eq!(
        state.request(),
        Some(Request::Store { filename: "model-file.Q4.gguf".to_string() })
    );
}

#[test]
fn response_without_a_filename_asks_for_no_file() {
    let state = Resolution::EnteringUrl
        .advance(Reply::Entered("https://host/path/".to_string()))
        .advance(Reply::Transferred(Transfer::Responded {
            final_url: "https://host/path/".to_string(),
        }));
    assert_eq!(state, Resolution::Failed(ResolveError::Acquire(AcquireError::NoFilenameInUrl)));
    assert_eq!(state.request(), None);
}

#[test]
fn failed_download_ends_the_resolution() {
    let state = Resolution::EnteringUrl
        .advance(Reply::Entered("https://host/m.gguf".to_string()))
        .advance(Reply::Transferred(Transfer::RequestFailed { cause: "404".to_string() }));
    assert_eq!(
        state.outcome(),
        Some(Err(ResolveError::Acquire(AcquireError::DownloadFailed("404".to_string()))))
    );
}

#[test]
fn whole_resolution_by_download() {
    let mut state = Resolution::start(None, None);
    let mut asked = Vec::new();
    let replies = vec![
        listing(&["readme.md"]),
        Reply::Entered("https://host/path/model-file.Q4.gguf".to_string()),
        Reply::Transferred(Transfer::Responded {
            final_url: "https://host/path/model-file.Q4.gguf".to_string(),
        }),
        Reply::Transferred(Transfer::Stored),
        Reply::Chosen(Some(12)),
    ];
    for reply in replies {
        asked.push(state.request().unwrap());
        state = state.advance(reply);
    }
    assert_eq!(
        asked,
        vec![
            Request::ListDirectory,
            Request::Input { prompt: "Enter the model url".to_string() },
            Request::Fetch { url: "https://host/path/model-file.Q4.gguf".to_string() },
            Request::Store { filename: "model-file.Q4.gguf".to_string() },
            template_menu(),
        ]
    );
    assert_eq!(state.request(), None);
    assert_eq!(
        state.outcome(),
        Some(Ok(ResolvedSelection {
            model_path: "model-file.Q4.gguf".to_string(),
            template: PromptTemplateType::Zephyr,
        }))
    );
}

#[test]
fn whole_resolution_from_the_cache() {
    let state = Resolution::start(None, None)
        .advance(listing(&["a.gguf", "b.gguf"]))
        .advance(Reply::Chosen(Some(0)))
        .advance(Reply::Chosen(Some(5)));
    assert_eq!(
        state.outcome(),
        Some(Ok(ResolvedSelection {
            model_path: "a.gguf".to_string(),
            template: PromptTemplateType::HumanAssistant,
        }))
    );
}

#[test]
fn every_listed_template_can_be_chosen() {
    let ids = listed_ids();
    for i in 0..ids.len() {
        let state = Resolution::ChoosingTemplate { model_path: "m.gguf".to_string() }
            .advance(Reply::Chosen(Some(i)));
        match state {
            Resolution::Resolved(selection) => {
                assert_eq!(selection.model_path, "m.gguf");
                assert_eq!(selection.template.to_string(), ids[i]);
            }
            other => panic!("no selection: {:?}", other),
        }
    }
}

#[test]
fn template_choice_past_the_list_changes_nothing() {
    let before = Resolution::ChoosingTemplate { model_path: "m.gguf".to_string() };
    assert_eq!(before.clone().advance(Reply::Chosen(Some(20))), before);
    assert_eq!(before.clone().advance(Reply::Chosen(Some(usize::MAX))), before);
}

#[test]
fn replies_that_answer_nothing_are_passed_over() {
    assert_eq!(Resolution::Scanning.advance(Reply::Chosen(Some(0))), Resolution::Scanning);
    assert_eq!(
        Resolution::Scanning.advance(Reply::Entered("https://host/m.gguf".to_string())),
        Resolution::Scanning
    );
    assert_eq!(Resolution::EnteringUrl.advance(Reply::Chosen(None)), Resolution::EnteringUrl);
    assert_eq!(choosing(&["a.gguf"]).advance(listing(&[])), choosing(&["a.gguf"]));
    let before = Resolution::ChoosingTemplate { model_path: "m.gguf".to_string() };
    assert_eq!(before.clone().advance(Reply::Transferred(Transfer::Stored)), before);
}

#[test]
fn finished_resolution_stays_as_it_is() {
    let done = Resolution::Resolved(ResolvedSelection {
        model_path: "m.gguf".to_string(),
        template: PromptTemplateType::ChatML,
    });
    assert_eq!(done.clone().advance(Reply::Chosen(None)), done);
    assert_eq!(done.clone().advance(listing(&["a.gguf"])), done);
    assert_eq!(done.request(), None);
}

#[test]
fn unfinished_resolution_has_no_outcome() {
    assert_eq!(Resolution::Scanning.outcome(), None);
    assert_eq!(Resolution::EnteringUrl.outcome(), None);
    assert_eq!(choosing(&["a.gguf"]).outcome(), None);
}
