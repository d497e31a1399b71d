//! Per-kind configuration: what the author of a form decides for a question.
use vstd::prelude::*;

verus! {

#[derive(Clone, Debug)]
pub struct ShortAnswerConfig;

#[derive(Clone, Debug)]
pub struct ParagraphConfig;

#[derive(Clone, Debug)]
pub struct MultipleChoiceConfig {
    pub options: Vec<String>,
}

#[derive(Clone, Debug)]
pub struct CheckboxesConfig {
    pub options: Vec<String>,
}

#[derive(Clone, Debug)]
pub struct DropdownConfig {
    pub options: Vec<String>,
}

/// A scale from `start` to `end`, each end with an optional label
/// (an empty label stands for none).
#[derive(Clone, Debug)]
pub struct LinearScaleConfig {
    pub start: usize,
    pub start_label: String,
    pub end: usize,
    pub end_label: String,
}

#[derive(Clone, Debug)]
pub struct MultipleChoiceGridConfig {
    pub rows: Vec<String>,
    pub columns: Vec<String>,
}

#[derive(Clone, Debug)]
pub struct CheckboxGridConfig {
    pub rows: Vec<String>,
    pub columns: Vec<String>,
}

#[derive(Clone, Debug)]
pub struct DateConfig;

#[derive(Clone, Debug)]
pub struct TimeConfig;

} // verus!
