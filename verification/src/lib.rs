//! A digest pipeline over a curated list of video channels: resolve each
//! channel's most recent long-form upload, fetch its transcript, rewrite the
//! transcript into a magazine-style article, bundle the articles into an
//! e-book, and compose a delivery email.
//!
//! The verified core is the multi-stage pipeline with partial-failure
//! isolation: a failing item is dropped at the stage boundary and the run
//! carries on with the rest; only an empty stage output ends the run early.

pub mod models;
pub mod errors;
pub mod text;
pub mod resolve;
pub mod transcript;
pub mod writer;
pub mod epub;
pub mod email;
pub mod pipeline;
