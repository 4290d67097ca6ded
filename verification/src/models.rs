//! The data carried between pipeline stages: videos resolved from a channel's
//! uploads collection and articles generated from their transcripts.

use vstd::prelude::*;

use crate::errors::PipelineError;

verus! {

/// One video resolved from a channel's uploads collection. The transcript is
/// absent until the transcript stage attaches it; nothing else is ever
/// mutated, and no value outlives a single pipeline run.
#[derive(Debug, PartialEq, Eq)]
pub struct Video {
    pub id: String,
    pub title: String,
    pub description: String,
    pub channel_name: String,
    pub url: String,
    pub transcript: Option<String>,
}

/// Mathematical model of a `Video`: each text field as a sequence of chars.
pub struct VideoView {
    pub id: Seq<char>,
    pub title: Seq<char>,
    pub description: Seq<char>,
    pub channel_name: Seq<char>,
    pub url: Seq<char>,
    pub transcript: Option<Seq<char>>,
}

impl View for Video {
    type V = VideoView;

    open spec fn view(&self) -> VideoView {
        VideoView {
            id: self.id@,
            title: self.title@,
            description: self.description@,
            channel_name: self.channel_name@,
            url: self.url@,
            transcript: self.transcript.deep_view(),
        }
    }
}

impl DeepView for Video {
    type V = VideoView;

    open spec fn deep_view(&self) -> VideoView {
        self.view()
    }
}

impl Video {
    /// Copies the video field by field.
    pub fn duplicate(&self) -> (r: Video)
        ensures
            r.deep_view() == self.deep_view(),
    {
        Video {
            id: self.id.clone(),
            title: self.title.clone(),
            description: self.description.clone(),
            channel_name: self.channel_name.clone(),
            url: self.url.clone(),
            transcript: match &self.transcript {
                Some(t) => Some(t.clone()),
                None => None,
            },
        }
    }
}

/// The text of each successful outcome, in order; a failed item carries
/// nothing forward.
pub open spec fn ok_text_views(s: Seq<Result<String, PipelineError>>) -> Seq<Option<Seq<char>>> {
    Seq::new(s.len(), |i: int| match s[i] {
        Ok(t) => Some(t@),
        Err(_) => None,
    })
}

/// One generated article: immutable once written, consumed in the same order
/// by the e-book assembler and the mailer.
#[derive(Debug, PartialEq, Eq)]
pub struct Article {
    pub title: String,
    pub channel: String,
    pub url: String,
    pub content: String,
}

/// Mathematical model of an `Article`.
pub struct ArticleView {
    pub title: Seq<char>,
    pub channel: Seq<char>,
    pub url: Seq<char>,
    pub content: Seq<char>,
}

impl View for Article {
    type V = ArticleView;

    open spec fn view(&self) -> ArticleView {
        ArticleView {
            title: self.title@,
            channel: self.channel@,
            url: self.url@,
            content: self.content@,
        }
    }
}

impl DeepView for Article {
    type V = ArticleView;

    open spec fn deep_view(&self) -> ArticleView {
        self.view()
    }
}

} // verus!
