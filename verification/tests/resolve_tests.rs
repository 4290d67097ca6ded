use video_digest::models::Video;
use video_digest::resolve::classify_long_form;
use video_digest::resolve::first_long_form;
use video_digest::resolve::is_short_url;
use video_digest::resolve::normalize_handle;
use video_digest::resolve::resolve_stage;
use video_digest::resolve::uploads_collection;
use video_digest::resolve::watch_url;
use video_digest::resolve::ProbeOutcome;
use video_digest::resolve::ResolveOutcome;
use video_digest::resolve::UploadEntry;
use video_digest::resolve::PROBE_FAILURE_IS_LONG_FORM;
use video_digest::resolve::UPLOADS_WINDOW;
use video_digest::errors::PipelineError;

fn entry(id: &str, title: &str) -> UploadEntry {
    UploadEntry {
        video_id: id.to_string(),
        title: title.to_string(),
        description: format!("about {}", title),
        channel_title: "Some Channel".to_string(),
    }
}

fn video(id: &str, title: &str) -> Video {
    Video {
        id: id.to_string(),
        title: title.to_string(),
        description: String::new(),
        channel_name: "Some Channel".to_string(),
        url: format!("https://www.youtube.com/watch?v={}", id),
        transcript: None,
    }
}

#[test]
fn normalize_strips_leading_marker() {
    assert_eq!(normalize_handle("@somecreator"), "somecreator");
    assert_eq!(normalize_handle("somecreator"), "somecreator");
    assert_eq!(normalize_handle("@@doubled"), "doubled");
    assert_eq!(normalize_handle(""), "");
    assert_eq!(normalize_handle("with@inside"), "with@inside");
}

#[test]
fn watch_url_exact() {
    assert_eq!(watch_url("abc123"), "https://www.youtube.com/watch?v=abc123");
    assert_eq!(watch_url(""), "https://www.youtube.com/watch?v=");
}

#[test]
fn short_url_detection() {
    assert!(is_short_url("https://www.youtube.com/shorts/abc123"));
    assert!(!is_short_url("https://www.youtube.com/watch?v=abc123"));
    assert!(!is_short_url(""));
}

#[test]
fn probe_failure_fails_open_to_long_form() {
    assert!(PROBE_FAILURE_IS_LONG_FORM);
    assert!(classify_long_form(&ProbeOutcome::Failed));
    assert!(classify_long_form(&ProbeOutcome::Resolved {
        final_url: "https://www.youtube.com/watch?v=abc".to_string(),
    }));
    assert!(!classify_long_form(&ProbeOutcome::Resolved {
        final_url: "https://www.youtube.com/shorts/abc".to_string(),
    }));
}

#[test]
fn first_long_form_picks_first_match() {
    let entries = vec![entry("s1", "short one"), entry("l1", "long one"), entry("l2", "long two")];
    let flags = vec![false, true, true];
    let found = first_long_form(&entries, &flags).expect("expected a long-form video");
    assert_eq!(found.id, "l1");
    assert_eq!(found.title, "long one");
    assert_eq!(found.url, "https://www.youtube.com/watch?v=l1");
    assert_eq!(found.transcript, None);
}

#[test]
fn all_short_window_yields_none_not_error() {
    let entries: Vec<UploadEntry> =
        (0..UPLOADS_WINDOW).map(|i| entry(&format!("s{}", i), "a short")).collect();
    let flags = vec![false; UPLOADS_WINDOW];
    assert!(first_long_form(&entries, &flags).is_none());
}

#[test]
fn resolve_stage_keeps_only_found_in_order() {
    let outcomes = vec![
        ResolveOutcome::Found(video("a", "first")),
        ResolveOutcome::NoneFound,
        ResolveOutcome::Failed(PipelineError::ChannelNotFound),
        ResolveOutcome::Found(video("b", "second")),
    ];
    let videos = resolve_stage(&outcomes);
    assert_eq!(videos.len(), 2);
    assert!(videos.len() <= outcomes.len());
    assert_eq!(videos[0].id, "a");
    assert_eq!(videos[1].id, "b");
}

#[test]
fn empty_catalog_answer_is_channel_not_found() {
    let none: Vec<String> = Vec::new();
    assert!(matches!(uploads_collection(&none), Err(PipelineError::ChannelNotFound)));
    let some = vec!["UUabc".to_string(), "UUother".to_string()];
    assert_eq!(uploads_collection(&some).unwrap(), "UUabc");
}

#[test]
fn resolve_stage_empty_on_no_successes() {
    let outcomes = vec![
        ResolveOutcome::NoneFound,
        ResolveOutcome::Failed(PipelineError::TransportError { message: "timeout".to_string() }),
    ];
    assert!(resolve_stage(&outcomes).is_empty());
}
