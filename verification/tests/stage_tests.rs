use video_digest::errors::PipelineError;
use video_digest::models::Video;
use video_digest::transcript::transcript_stage;
use video_digest::transcript::TranscriptFetcher;
use video_digest::writer::accept_generation;
use video_digest::writer::build_prompt;
use video_digest::writer::generate_stage;
use video_digest::writer::GENERATION_MAX_TOKENS;

fn video(id: &str, title: &str) -> Video {
    Video {
        id: id.to_string(),
        title: title.to_string(),
        description: format!("about {}", title),
        channel_name: "Some Channel".to_string(),
        url: format!("https://www.youtube.com/watch?v={}", id),
        transcript: None,
    }
}

#[test]
fn transcript_stage_attaches_and_drops() {
    let videos = vec![video("a", "first"), video("b", "second"), video("c", "third")];
    let fetches: Vec<Result<String, PipelineError>> = vec![
        Ok("first words".to_string()),
        Err(PipelineError::TranscriptUnavailable),
        Ok("third words".to_string()),
    ];
    let out = transcript_stage(&videos, &fetches);
    assert_eq!(out.len(), 2);
    for v in &out {
        assert!(v.transcript.is_some());
    }
    assert_eq!(out[0].id, "a");
    assert_eq!(out[0].transcript, Some("first words".to_string()));
    assert_eq!(out[1].id, "c");
}

#[test]
fn fetcher_accepts_clean_output_trimmed() {
    let f = TranscriptFetcher::new();
    let r = f.accept_output(true, Some("  hello transcript \n".to_string()), "");
    assert_eq!(r.unwrap(), "hello transcript");
}

#[test]
fn fetcher_blank_output_means_unavailable() {
    let f = TranscriptFetcher::new();
    let r = f.accept_output(true, Some("   \n\t ".to_string()), "");
    assert!(matches!(r, Err(PipelineError::TranscriptUnavailable)));
}

#[test]
fn fetcher_unclean_exit_is_provider_error() {
    let f = TranscriptFetcher::new();
    let r = f.accept_output(false, None, " no captions found \n");
    match r {
        Err(PipelineError::TranscriptProviderError { message }) => {
            assert_eq!(message, "no captions found");
        },
        other => panic!("expected a provider error, got {:?}", other),
    }
}

#[test]
fn fetcher_undecodable_output_is_provider_error() {
    let f = TranscriptFetcher::new();
    let r = f.accept_output(true, None, "");
    match r {
        Err(PipelineError::TranscriptProviderError { message }) => {
            assert_eq!(message, "transcript output was not valid text");
        },
        other => panic!("expected a provider error, got {:?}", other),
    }
}

#[test]
fn prompt_is_exactly_the_fixed_template() {
    let mut v = video("abc", "A Title");
    v.transcript = Some("the spoken words".to_string());
    let prompt = build_prompt(&v);
    let expected = format!(
        "You are a skilled magazine writer. Transform this YouTube video transcript into a well-written, engaging article.\n\nVIDEO TITLE: {}\nCHANNEL: {}\nVIDEO URL: {}\n\nVIDEO DESCRIPTION:\n{}\n\nTRANSCRIPT:\n{}\n\n---\n\nRemix this YouTube transcript into a magazine article. Guidelines:\n- Use the video title and description to correct any transcription errors, especially names of people, companies, or technical terms. The description often contains the correct spellings.\n- Start with an engaging headline (different from the video title)\n- The audience is a curious individual who is generally smart but not a specialist or expert in the area mentioned in the video\n- Highly engaging and readable. Wherever jargon or obscure references appear, explain them. Extremely well-written; think New Yorker or the Atlantic\n- Capture the key insights, especially contrarian viewpoints, memorable anecdotes, and surprising insights. Preserve key quotes (clean up filler words or transcription errors).\n- There's no fixed length requirement; it depends on the length of the original article as well as the insight density. Make your own judgment. This should be a satisfying long-read.\n- Do NOT include phrases like \"In this video\" - write it as a standalone article. Assume the reader has not watched the video and has zero context about it. This article is meant to be as a replacement, not complement, for watching the video.\n\nFormat the article in clean markdown.",
        "A Title",
        "Some Channel",
        "https://www.youtube.com/watch?v=abc",
        "about A Title",
        "the spoken words",
    );
    assert_eq!(prompt, expected);
}

#[test]
fn generation_request_parameters() {
    assert_eq!(GENERATION_MAX_TOKENS, 8192);
}

#[test]
fn generation_error_carries_status_and_body() {
    let r = accept_generation(429, "rate limited".to_string(), None);
    match r {
        Err(PipelineError::GenerationError { status, body }) => {
            assert_eq!(status, 429);
            assert_eq!(body, "rate limited");
        },
        other => panic!("expected a generation error, got {:?}", other),
    }
}

#[test]
fn generation_malformed_shape_is_error() {
    let r = accept_generation(200, "{}".to_string(), None);
    assert!(matches!(r, Err(PipelineError::GenerationError { status: 200, .. })));
    let r2 = accept_generation(200, "{}".to_string(), Some(String::new()));
    assert!(matches!(r2, Err(PipelineError::GenerationError { status: 200, .. })));
}

#[test]
fn generation_success_is_verbatim() {
    let r = accept_generation(200, "raw body".to_string(), Some("# The Article\n".to_string()));
    assert_eq!(r.unwrap(), "# The Article\n");
}

#[test]
fn generate_stage_builds_articles_from_videos() {
    let mut v1 = video("a", "first");
    v1.transcript = Some("words a".to_string());
    let mut v2 = video("b", "second");
    v2.transcript = Some("words b".to_string());
    let videos = vec![v1, v2];
    let gens: Vec<Result<String, PipelineError>> = vec![
        Ok("article a".to_string()),
        Err(PipelineError::GenerationError { status: 500, body: "oops".to_string() }),
    ];
    let articles = generate_stage(&videos, &gens);
    assert_eq!(articles.len(), 1);
    assert_eq!(articles[0].title, "first");
    assert_eq!(articles[0].channel, "Some Channel");
    assert_eq!(articles[0].url, "https://www.youtube.com/watch?v=a");
    assert_eq!(articles[0].content, "article a");
}
