//! The generate stage: the fixed prompt handed to the text-generation
//! service, the judgement of its response, and per-video failure isolation.

use vstd::prelude::*;
use vstd::string::StringExecFns;

use crate::errors::PipelineError;
use crate::models::ok_text_views;
use crate::models::Article;
use crate::models::ArticleView;
use crate::models::Video;
use crate::models::VideoView;

verus! {

/// The maximum output size requested from the generation service.
pub const GENERATION_MAX_TOKENS: u32 = 8192;

/// The fixed instruction document built around one video: its title, channel,
/// URL, description and full transcript, followed by the writing guidelines.
pub open spec fn prompt_spec(v: VideoView) -> Seq<char>
    recommends
        v.transcript is Some,
{
    "You are a skilled magazine writer. Transform this YouTube video transcript into a well-written, engaging article.\n\nVIDEO TITLE: "@
        + v.title + "\nCHANNEL: "@ + v.channel_name + "\nVIDEO URL: "@ + v.url
        + "\n\nVIDEO DESCRIPTION:\n"@ + v.description + "\n\nTRANSCRIPT:\n"@
        + v.transcript->Some_0
        + "\n\n---\n\nRemix this YouTube transcript into a magazine article. Guidelines:\n- Use the video title and description to correct any transcription errors, especially names of people, companies, or technical terms. The description often contains the correct spellings.\n- Start with an engaging headline (different from the video title)\n- The audience is a curious individual who is generally smart but not a specialist or expert in the area mentioned in the video\n- Highly engaging and readable. Wherever jargon or obscure references appear, explain them. Extremely well-written; think New Yorker or the Atlantic\n- Capture the key insights, especially contrarian viewpoints, memorable anecdotes, and surprising insights. Preserve key quotes (clean up filler words or transcription errors).\n- There's no fixed length requirement; it depends on the length of the original article as well as the insight density. Make your own judgment. This should be a satisfying long-read.\n- Do NOT include phrases like \"In this video\" - write it as a standalone article. Assume the reader has not watched the video and has zero context about it. This article is meant to be as a replacement, not complement, for watching the video.\n\nFormat the article in clean markdown."@
}

/// Builds the prompt for one video. The transcript must be present: callers
/// filter beforehand, so a missing transcript is a programming error, not a
/// runtime condition.
pub fn build_prompt(video: &Video) -> (r: String)
    requires
        video.deep_view().transcript is Some,
    ensures
        r@ == prompt_spec(video.deep_view()),
{
    let mut s = String::new();
    s.append(
        "You are a skilled magazine writer. Transform this YouTube video transcript into a well-written, engaging article.\n\nVIDEO TITLE: ",
    );
    s.append(video.title.as_str());
    s.append("\nCHANNEL: ");
    s.append(video.channel_name.as_str());
    s.append("\nVIDEO URL: ");
    s.append(video.url.as_str());
    s.append("\n\nVIDEO DESCRIPTION:\n");
    s.append(video.description.as_str());
    s.append("\n\nTRANSCRIPT:\n");
    match &video.transcript {
        Some(t) => {
            s.append(t.as_str());
        },
        None => {
            proof {
                assert(false);
            }
        },
    }
    s.append(
        "\n\n---\n\nRemix this YouTube transcript into a magazine article. Guidelines:\n- Use the video title and description to correct any transcription errors, especially names of people, companies, or technical terms. The description often contains the correct spellings.\n- Start with an engaging headline (different from the video title)\n- The audience is a curious individual who is generally smart but not a specialist or expert in the area mentioned in the video\n- Highly engaging and readable. Wherever jargon or obscure references appear, explain them. Extremely well-written; think New Yorker or the Atlantic\n- Capture the key insights, especially contrarian viewpoints, memorable anecdotes, and surprising insights. Preserve key quotes (clean up filler words or transcription errors).\n- There's no fixed length requirement; it depends on the length of the original article as well as the insight density. Make your own judgment. This should be a satisfying long-read.\n- Do NOT include phrases like \"In this video\" - write it as a standalone article. Assume the reader has not watched the video and has zero context about it. This article is meant to be as a replacement, not complement, for watching the video.\n\nFormat the article in clean markdown.",
    );
    proof {
        assert(s@ =~= prompt_spec(video.deep_view()));
    }
    s
}

/// A response status counts as success.
pub open spec fn is_success_status(status: u16) -> bool {
    200 <= status < 300
}

/// The result is a generation error carrying the given status and body.
pub open spec fn is_generation_error(
    r: Result<String, PipelineError>,
    status: u16,
    body: Seq<char>,
) -> bool {
    r matches Err(e) && e matches PipelineError::GenerationError { status: st, body: b } && st
        == status && b@ == body
}

/// Judges one response of the generation service: `status` is its response
/// status, `body` its raw body, and `text` the first content block's text
/// where the response shape held one. A non-success status or a malformed or
/// empty text is a `GenerationError` carrying the status and body; anything
/// else is the article text, taken verbatim.
pub fn accept_generation(status: u16, body: String, text: Option<String>) -> (r: Result<
    String,
    PipelineError,
>)
    ensures
        !is_success_status(status) ==> is_generation_error(r, status, body@),
        is_success_status(status) ==> (match text {
            None => is_generation_error(r, status, body@),
            Some(t) => {
                if t@.len() == 0 {
                    is_generation_error(r, status, body@)
                } else {
                    r matches Ok(a) && a@ == t@
                }
            },
        }),
{
    if !(200 <= status && status < 300) {
        return Err(PipelineError::GenerationError { status, body });
    }
    match text {
        None => Err(PipelineError::GenerationError { status, body }),
        Some(t) => {
            if t.as_str().is_empty() {
                Err(PipelineError::GenerationError { status, body })
            } else {
                Ok(t)
            }
        },
    }
}

/// The article generated from one video: title, channel and source URL are
/// always those of the video itself — never fabricated — and the body is the
/// generated text.
pub open spec fn article_of(v: VideoView, content: Seq<char>) -> ArticleView {
    ArticleView { title: v.title, channel: v.channel_name, url: v.url, content }
}

/// The articles the generate stage carries forward: one per successful
/// generation, in order; a failed generation drops its video without aborting
/// the run.
pub open spec fn generated_articles(vs: Seq<VideoView>, gs: Seq<Option<Seq<char>>>) -> Seq<
    ArticleView,
>
    recommends
        vs.len() == gs.len(),
    decreases vs.len(),
{
    if vs.len() == 0 || gs.len() == 0 {
        Seq::empty()
    } else {
        generated_articles(vs.drop_last(), gs.drop_last()) + (match gs.last() {
            Some(c) => seq![article_of(vs.last(), c)],
            None => Seq::empty(),
        })
    }
}

/// The generate stage: turns each successful generation into an article and
/// applies per-video failure isolation to the rest.
pub fn generate_stage(videos: &Vec<Video>, gens: &Vec<Result<String, PipelineError>>) -> (r: Vec<
    Article,
>)
    requires
        videos@.len() == gens@.len(),
    ensures
        r.deep_view() == generated_articles(videos.deep_view(), ok_text_views(gens@)),
{
    let n = videos.len();
    let mut out: Vec<Article> = Vec::new();
    let mut i: usize = 0;
    while i < n
        invariant
            n == videos@.len(),
            videos@.len() == gens@.len(),
            0 <= i <= n,
            out.deep_view() == generated_articles(
                videos.deep_view().take(i as int),
                ok_text_views(gens@).take(i as int),
            ),
        decreases n - i,
    {
        let ghost pre_v = videos.deep_view().take(i as int);
        let ghost pre_g = ok_text_views(gens@).take(i as int);
        let ghost post_v = videos.deep_view().take(i + 1int);
        let ghost post_g = ok_text_views(gens@).take(i + 1int);
        proof {
            assert(post_v.drop_last() =~= pre_v);
            assert(post_g.drop_last() =~= pre_g);
        }
        match &gens[i] {
            Ok(c) => {
                let a = Article {
                    title: videos[i].title.clone(),
                    channel: videos[i].channel_name.clone(),
                    url: videos[i].url.clone(),
                    content: c.clone(),
                };
                out.push(a);
                proof {
                    assert(out.deep_view() =~= generated_articles(post_v, post_g));
                }
            },
            Err(_) => {
                proof {
                    assert(generated_articles(post_v, post_g) =~= generated_articles(
                        pre_v,
                        pre_g,
                    ));
                }
            },
        }
        i += 1;
    }
    proof {
        assert(videos.deep_view().take(n as int) =~= videos.deep_view());
        assert(ok_text_views(gens@).take(n as int) =~= ok_text_views(gens@));
    }
    out
}

} // verus!
