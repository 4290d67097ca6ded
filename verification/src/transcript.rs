//! The transcript stage: judging what the external transcript service
//! returned for one video, and attaching transcripts with per-video failure
//! isolation.

use vstd::prelude::*;

use crate::errors::PipelineError;
use crate::models::ok_text_views;
use crate::models::Video;
use crate::models::VideoView;

verus! {

/// What `str::trim` returns for the given characters; the result depends on
/// the characters alone.
pub uninterp spec fn trimmed_of(s: Seq<char>) -> Seq<char>;

/// Relies on str::trim: returns the input with leading and trailing
/// whitespace removed, so never longer than the input.
#[verifier::external_body]
fn trim_text(s: &str) -> (r: &str)
    ensures
        r@ == trimmed_of(s@),
        r@.len() <= s@.len(),
{
    s.trim()
}

/// The result is a provider error carrying the given message.
pub open spec fn is_provider_error(r: Result<String, PipelineError>, message: Seq<char>) -> bool {
    r matches Err(e) && e matches PipelineError::TranscriptProviderError { message: m } && m@
        == message
}

/// Retrieval of a transcript for a video identifier. The external service is
/// invoked once per video, with no retry; this type judges its output.
pub struct TranscriptFetcher;

impl TranscriptFetcher {
    /// A fetcher with no state of its own.
    pub fn new() -> (r: Self) {
        TranscriptFetcher
    }

    /// Judges one invocation of the transcript service: `success` is whether
    /// it exited cleanly, `stdout` its output when that output was valid
    /// text, and `stderr` its error channel. An unclean exit or undecodable
    /// output is a provider error; clean output that trims to nothing means
    /// the video has no transcript; anything else is the transcript, trimmed.
    pub fn accept_output(&self, success: bool, stdout: Option<String>, stderr: &str) -> (r: Result<
        String,
        PipelineError,
    >)
        ensures
            !success ==> is_provider_error(r, trimmed_of(stderr@)),
            success ==> (match stdout {
                None => is_provider_error(r, "transcript output was not valid text"@),
                Some(s) => {
                    if trimmed_of(s@).len() == 0 {
                        r matches Err(e) && e is TranscriptUnavailable
                    } else {
                        r matches Ok(t) && t@ == trimmed_of(s@)
                    }
                },
            }),
    {
        if !success {
            let trimmed = trim_text(stderr);
            return Err(PipelineError::TranscriptProviderError { message: trimmed.to_owned() });
        }
        match stdout {
            None => Err(
                PipelineError::TranscriptProviderError {
                    message: "transcript output was not valid text".to_owned(),
                },
            ),
            Some(s) => {
                let trimmed = trim_text(s.as_str());
                if trimmed.is_empty() {
                    Err(PipelineError::TranscriptUnavailable)
                } else {
                    Ok(trimmed.to_owned())
                }
            },
        }
    }
}

/// A video with a transcript attached.
pub open spec fn with_transcript(v: VideoView, t: Seq<char>) -> VideoView {
    VideoView {
        id: v.id,
        title: v.title,
        description: v.description,
        channel_name: v.channel_name,
        url: v.url,
        transcript: Some(t),
    }
}

/// The videos the transcript stage carries forward: those whose fetch
/// succeeded, in order, each with its transcript attached; a failed fetch
/// drops its video without aborting the run.
pub open spec fn transcribed_videos(vs: Seq<VideoView>, fs: Seq<Option<Seq<char>>>) -> Seq<
    VideoView,
>
    recommends
        vs.len() == fs.len(),
    decreases vs.len(),
{
    if vs.len() == 0 || fs.len() == 0 {
        Seq::empty()
    } else {
        transcribed_videos(vs.drop_last(), fs.drop_last()) + (match fs.last() {
            Some(t) => seq![with_transcript(vs.last(), t)],
            None => Seq::empty(),
        })
    }
}

/// The transcript stage: attaches each successful fetch to its video and
/// applies per-video failure isolation to the rest.
pub fn transcript_stage(videos: &Vec<Video>, fetches: &Vec<Result<String, PipelineError>>) -> (r:
    Vec<Video>)
    requires
        videos@.len() == fetches@.len(),
    ensures
        r.deep_view() == transcribed_videos(videos.deep_view(), ok_text_views(fetches@)),
{
    let n = videos.len();
    let mut out: Vec<Video> = Vec::new();
    let mut i: usize = 0;
    while i < n
        invariant
            n == videos@.len(),
            videos@.len() == fetches@.len(),
            0 <= i <= n,
            out.deep_view() == transcribed_videos(
                videos.deep_view().take(i as int),
                ok_text_views(fetches@).take(i as int),
            ),
        decreases n - i,
    {
        let ghost pre_v = videos.deep_view().take(i as int);
        let ghost pre_f = ok_text_views(fetches@).take(i as int);
        let ghost post_v = videos.deep_view().take(i + 1int);
        let ghost post_f = ok_text_views(fetches@).take(i + 1int);
        proof {
            assert(post_v.drop_last() =~= pre_v);
            assert(post_f.drop_last() =~= pre_f);
        }
        match &fetches[i] {
            Ok(t) => {
                let mut v = videos[i].duplicate();
                v.transcript = Some(t.clone());
                out.push(v);
                proof {
                    assert(out.deep_view() =~= transcribed_videos(post_v, post_f));
                }
            },
            Err(_) => {
                proof {
                    assert(transcribed_videos(post_v, post_f) =~= transcribed_videos(
                        pre_v,
                        pre_f,
                    ));
                }
            },
        }
        i += 1;
    }
    proof {
        assert(videos.deep_view().take(n as int) =~= videos.deep_view());
        assert(ok_text_views(fetches@).take(n as int) =~= ok_text_views(fetches@));
    }
    out
}

/// Partial-failure isolation at the transcript boundary: the stage's output
/// is never longer than its input, and every video it carries forward has its
/// transcript populated.
pub proof fn lemma_transcripts_populated(vs: Seq<VideoView>, fs: Seq<Option<Seq<char>>>)
    requires
        vs.len() == fs.len(),
    ensures
        transcribed_videos(vs, fs).len() <= vs.len(),
        forall|j: int| 0 <= j < transcribed_videos(vs, fs).len() ==> (#[trigger] transcribed_videos(
            vs,
            fs,
        )[j]).transcript is Some,
    decreases vs.len(),
{
    if vs.len() == 0 {
    } else {
        lemma_transcripts_populated(vs.drop_last(), fs.drop_last());
    }
}

} // verus!
