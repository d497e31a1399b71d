//! Data models of a remote forms service: forms, responses and watches.
pub mod forms;
pub mod responses;
pub mod watches;

use vstd::prelude::*;

verus! {

/// Feedback for a respondent about their response to a question.
#[derive(Clone)]
pub struct Feedback {
    /// The main text of the feedback.
    pub text: String,
    /// Further material, often pointing the respondent to reading.
    pub material: Vec<ExtraMaterial>,
}

/// Supplementary material to the feedback.
#[derive(Clone)]
pub struct ExtraMaterial {
    pub content: ContentType,
}

/// The contents of the extra material.
#[derive(Clone)]
pub enum ContentType {
    /// Text feedback.
    Link(TextLink),
    /// Video feedback.
    Video(VideoLink),
}

/// Link for text.
#[derive(Clone)]
pub struct TextLink {
    pub uri: String,
    /// Display text for the URI.
    pub display_text: String,
}

/// Link to a video.
#[derive(Clone)]
pub struct VideoLink {
    pub display_text: String,
    pub youtube_uri: String,
}

} // verus!
