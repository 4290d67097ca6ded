//! The pipeline runner: the stages in order over a fixed channel list, with
//! partial-failure isolation at every stage boundary. A stage whose input
//! runs empty ends the run early as a no-op, not a failure.

use vstd::prelude::*;

use crate::email::create_html_body;
use crate::email::email_body_spec;
use crate::email::email_subject;
use crate::email::email_subject_spec;
use crate::epub::chapters_spec;
use crate::epub::EpubGenerator;
use crate::epub::Chapter;
use crate::epub::ChapterView;
use crate::errors::PipelineError;
use crate::models::ok_text_views;
use crate::models::Article;
use crate::models::ArticleView;
use crate::resolve::resolve_stage;
use crate::resolve::resolved_videos;
use crate::resolve::ResolveOutcome;
use crate::resolve::ResolveOutcomeView;
use crate::transcript::transcribed_videos;
use crate::transcript::transcript_stage;
use crate::writer::generate_stage;
use crate::writer::generated_articles;

verus! {

/// What one run produced: an early no-op end when a stage's input ran empty,
/// or the full digest, ready for assembly and delivery.
#[derive(Debug, PartialEq, Eq)]
pub enum RunReport {
    /// No channel resolved to a long-form video.
    NoVideos,
    /// No resolved video had a transcript.
    NoTranscripts,
    /// No transcript yielded an article.
    NoArticles,
    /// The digest: its articles, the e-book chapters in the same order, the
    /// email body and subject, and whether the deliver stage is to run.
    Ready {
        articles: Vec<Article>,
        chapters: Vec<Chapter>,
        email_body: String,
        subject: String,
        deliver: bool,
    },
}

/// Mathematical model of a `RunReport`.
pub enum RunReportView {
    NoVideos,
    NoTranscripts,
    NoArticles,
    Ready {
        articles: Seq<ArticleView>,
        chapters: Seq<ChapterView>,
        email_body: Seq<char>,
        subject: Seq<char>,
        deliver: bool,
    },
}

impl View for RunReport {
    type V = RunReportView;

    open spec fn view(&self) -> RunReportView {
        match self {
            RunReport::NoVideos => RunReportView::NoVideos,
            RunReport::NoTranscripts => RunReportView::NoTranscripts,
            RunReport::NoArticles => RunReportView::NoArticles,
            RunReport::Ready { articles, chapters, email_body, subject, deliver } => {
                RunReportView::Ready {
                    articles: articles.deep_view(),
                    chapters: chapters.deep_view(),
                    email_body: email_body@,
                    subject: subject@,
                    deliver: *deliver,
                }
            },
        }
    }
}

impl DeepView for RunReport {
    type V = RunReportView;

    open spec fn deep_view(&self) -> RunReportView {
        self.view()
    }
}

/// The whole run as a function of what the external collaborators answered:
/// the three isolating stages in order, each ending the run early when its
/// output is empty, then the chapters, the email body and the subject, with
/// delivery gated on the mail configuration.
pub open spec fn run_spec(
    res: Seq<ResolveOutcomeView>,
    fet: Seq<Option<Seq<char>>>,
    gen: Seq<Option<Seq<char>>>,
    date: Seq<char>,
    mail_configured: bool,
) -> RunReportView {
    let vids = resolved_videos(res);
    if vids.len() == 0 {
        RunReportView::NoVideos
    } else {
        let tvids = transcribed_videos(vids, fet);
        if tvids.len() == 0 {
            RunReportView::NoTranscripts
        } else {
            let arts = generated_articles(tvids, gen);
            if arts.len() == 0 {
                RunReportView::NoArticles
            } else {
                RunReportView::Ready {
                    articles: arts,
                    chapters: chapters_spec(arts),
                    email_body: email_body_spec(arts, date),
                    subject: email_subject_spec(date),
                    deliver: mail_configured,
                }
            }
        }
    }
}

/// Runs the pipeline over the collaborators' answers: `resolutions` holds one
/// outcome per channel; `fetches` one transcript result per resolved video,
/// in order; `generations` one generation result per transcribed video, in
/// order. `date` is the send date already rendered, and `mail_configured`
/// whether both mail credentials are present.
pub fn run_pipeline(
    resolutions: &Vec<ResolveOutcome>,
    fetches: &Vec<Result<String, PipelineError>>,
    generations: &Vec<Result<String, PipelineError>>,
    date: &str,
    mail_configured: bool,
) -> (r: RunReport)
    requires
        fetches@.len() == resolved_videos(resolutions.deep_view()).len(),
        generations@.len() == transcribed_videos(
            resolved_videos(resolutions.deep_view()),
            ok_text_views(fetches@),
        ).len(),
    ensures
        r.deep_view() == run_spec(
            resolutions.deep_view(),
            ok_text_views(fetches@),
            ok_text_views(generations@),
            date@,
            mail_configured,
        ),
{
    let videos = resolve_stage(resolutions);
    if videos.len() == 0 {
        return RunReport::NoVideos;
    }
    let transcribed = transcript_stage(&videos, fetches);
    if transcribed.len() == 0 {
        return RunReport::NoTranscripts;
    }
    let articles = generate_stage(&transcribed, generations);
    if articles.len() == 0 {
        return RunReport::NoArticles;
    }
    let chapters = EpubGenerator::build_chapters(&articles);
    let email_body = create_html_body(&articles, date);
    let subject = email_subject(date);
    RunReport::Ready { articles, chapters, email_body, subject, deliver: mail_configured }
}

/// Idempotence: the run is a function of the collaborators' answers alone, so
/// two runs over the same answers report the same articles, the same chapter
/// ordering and the same email body and subject.
pub proof fn lemma_run_idempotent(
    res1: Seq<ResolveOutcomeView>,
    fet1: Seq<Option<Seq<char>>>,
    gen1: Seq<Option<Seq<char>>>,
    date1: Seq<char>,
    mail1: bool,
    res2: Seq<ResolveOutcomeView>,
    fet2: Seq<Option<Seq<char>>>,
    gen2: Seq<Option<Seq<char>>>,
    date2: Seq<char>,
    mail2: bool,
)
    requires
        res1 == res2,
        fet1 == fet2,
        gen1 == gen2,
        date1 == date2,
        mail1 == mail2,
    ensures
        run_spec(res1, fet1, gen1, date1, mail1) == run_spec(res2, fet2, gen2, date2, mail2),
{
}

} // verus!
