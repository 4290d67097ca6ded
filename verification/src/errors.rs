//! The error kinds a pipeline run can meet. Per-item errors in the resolve,
//! transcript and generate stages are contained at the item boundary; errors
//! in assembly or delivery are stage-fatal.

use vstd::prelude::*;

verus! {

/// Every failure a run can report. `GenerationError` carries the generation
/// service's status and body for diagnostics.
#[derive(Debug, PartialEq, Eq)]
pub enum PipelineError {
    /// The catalog API returned no channel for the given handle.
    ChannelNotFound,
    /// The video has no transcript (for instance, captions are disabled).
    TranscriptUnavailable,
    /// The transcript service failed in any other way.
    TranscriptProviderError { message: String },
    /// The generation service answered with a non-success status or a
    /// malformed response shape.
    GenerationError { status: u16, body: String },
    /// The e-book container could not be assembled.
    AssemblyError { message: String },
    /// The e-book file could not be read back for attachment.
    AttachmentReadError,
    /// The mail transport refused or failed the submission.
    DeliveryError { message: String },
    /// A transport or timeout failure on any outward call.
    TransportError { message: String },
}

impl PipelineError {
    /// A short human-readable label for the error kind, without its payload.
    pub fn kind_label(&self) -> (r: &'static str)
        ensures
            r@ == self.spec_kind_label(),
    {
        match self {
            PipelineError::ChannelNotFound => "channel not found",
            PipelineError::TranscriptUnavailable => "transcript unavailable",
            PipelineError::TranscriptProviderError { .. } => "transcript provider error",
            PipelineError::GenerationError { .. } => "generation error",
            PipelineError::AssemblyError { .. } => "assembly error",
            PipelineError::AttachmentReadError => "attachment read error",
            PipelineError::DeliveryError { .. } => "delivery error",
            PipelineError::TransportError { .. } => "transport error",
        }
    }

    /// What `kind_label` returns for each variant.
    pub open spec fn spec_kind_label(&self) -> Seq<char> {
        match self {
            PipelineError::ChannelNotFound => "channel not found"@,
            PipelineError::TranscriptUnavailable => "transcript unavailable"@,
            PipelineError::TranscriptProviderError { .. } => "transcript provider error"@,
            PipelineError::GenerationError { .. } => "generation error"@,
            PipelineError::AssemblyError { .. } => "assembly error"@,
            PipelineError::AttachmentReadError => "attachment read error"@,
            PipelineError::DeliveryError { .. } => "delivery error"@,
            PipelineError::TransportError { .. } => "transport error"@,
        }
    }
}

} // verus!
