use video_digest::errors::PipelineError;
use video_digest::models::Video;
use video_digest::pipeline::run_pipeline;
use video_digest::pipeline::RunReport;
use video_digest::resolve::ResolveOutcome;

fn video(id: &str, title: &str) -> Video {
    Video {
        id: id.to_string(),
        title: title.to_string(),
        description: format!("about {}", title),
        channel_name: "Channel A".to_string(),
        url: format!("https://www.youtube.com/watch?v={}", id),
        transcript: None,
    }
}

#[test]
fn one_channel_fails_run_still_succeeds() {
    // Channel A resolves a long-form video with a valid transcript and a
    // successful generation; channel B's resolution fails.
    let resolutions = vec![
        ResolveOutcome::Found(video("a", "A's upload")),
        ResolveOutcome::Failed(PipelineError::ChannelNotFound),
    ];
    let fetches: Vec<Result<String, PipelineError>> = vec![Ok("spoken words".to_string())];
    let generations: Vec<Result<String, PipelineError>> = vec![Ok("# The Article".to_string())];
    let report = run_pipeline(&resolutions, &fetches, &generations, "January 01, 2026", true);
    match report {
        RunReport::Ready { articles, chapters, deliver, .. } => {
            assert_eq!(articles.len(), 1);
            assert_eq!(articles[0].title, "A's upload");
            assert_eq!(chapters.len(), 1);
            assert_eq!(chapters[0].href, "article_0.xhtml");
            assert!(deliver);
        },
        other => panic!("expected a completed run, got {:?}", other),
    }
}

#[test]
fn transcript_failure_for_only_video_ends_run_quietly() {
    // The transcript service fails for the only resolved video: the generate
    // stage is never reached and the run ends as a no-op, not a crash.
    let resolutions = vec![ResolveOutcome::Found(video("a", "A's upload"))];
    let fetches: Vec<Result<String, PipelineError>> = vec![Err(
        PipelineError::TranscriptProviderError { message: "service unreachable".to_string() },
    )];
    let generations: Vec<Result<String, PipelineError>> = Vec::new();
    let report = run_pipeline(&resolutions, &fetches, &generations, "January 01, 2026", true);
    assert_eq!(report, RunReport::NoTranscripts);
}

#[test]
fn no_videos_ends_run_quietly() {
    let resolutions = vec![ResolveOutcome::NoneFound, ResolveOutcome::NoneFound];
    let report = run_pipeline(&resolutions, &Vec::new(), &Vec::new(), "January 01, 2026", true);
    assert_eq!(report, RunReport::NoVideos);
}

#[test]
fn no_articles_ends_run_quietly() {
    let resolutions = vec![ResolveOutcome::Found(video("a", "A's upload"))];
    let fetches: Vec<Result<String, PipelineError>> = vec![Ok("spoken words".to_string())];
    let generations: Vec<Result<String, PipelineError>> = vec![Err(
        PipelineError::GenerationError { status: 500, body: "overloaded".to_string() },
    )];
    let report = run_pipeline(&resolutions, &fetches, &generations, "January 01, 2026", true);
    assert_eq!(report, RunReport::NoArticles);
}

#[test]
fn absent_mail_credentials_skip_delivery_only() {
    // With mail credentials absent, the run still completes and the e-book is
    // still assembled; only the deliver stage is switched off.
    let resolutions = vec![
        ResolveOutcome::Found(video("a", "A's upload")),
        ResolveOutcome::Found(video("b", "B's upload")),
    ];
    let fetches: Vec<Result<String, PipelineError>> =
        vec![Ok("words a".to_string()), Ok("words b".to_string())];
    let generations: Vec<Result<String, PipelineError>> =
        vec![Ok("article a".to_string()), Ok("article b".to_string())];
    let report = run_pipeline(&resolutions, &fetches, &generations, "January 01, 2026", false);
    match report {
        RunReport::Ready { articles, chapters, deliver, .. } => {
            assert!(!deliver);
            assert_eq!(articles.len(), 2);
            assert_eq!(chapters.len(), 2);
            let bytes = video_digest::epub::EpubGenerator::create_epub(&articles)
                .expect("assembly failed");
            assert_eq!(&bytes[0..2], b"PK");
        },
        other => panic!("expected a completed run, got {:?}", other),
    }
}

#[test]
fn all_short_channel_drops_but_run_proceeds() {
    // One channel's window was all short-form ("none found"); the run still
    // proceeds with the channel that succeeded.
    let resolutions = vec![
        ResolveOutcome::NoneFound,
        ResolveOutcome::Found(video("b", "B's upload")),
    ];
    let fetches: Vec<Result<String, PipelineError>> = vec![Ok("words b".to_string())];
    let generations: Vec<Result<String, PipelineError>> = vec![Ok("article b".to_string())];
    let report = run_pipeline(&resolutions, &fetches, &generations, "January 01, 2026", true);
    match report {
        RunReport::Ready { articles, .. } => {
            assert_eq!(articles.len(), 1);
            assert_eq!(articles[0].title, "B's upload");
        },
        other => panic!("expected a completed run, got {:?}", other),
    }
}

#[test]
fn two_runs_report_identically() {
    let resolutions = vec![
        ResolveOutcome::Found(video("a", "A's upload")),
        ResolveOutcome::Found(video("b", "B's upload")),
    ];
    let fetches: Vec<Result<String, PipelineError>> =
        vec![Ok("words a".to_string()), Ok("words b".to_string())];
    let generations: Vec<Result<String, PipelineError>> =
        vec![Ok("article a".to_string()), Ok("article b".to_string())];
    let once = run_pipeline(&resolutions, &fetches, &generations, "January 01, 2026", true);
    let twice = run_pipeline(&resolutions, &fetches, &generations, "January 01, 2026", true);
    assert_eq!(once, twice);
}
