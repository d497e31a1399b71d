//! Per-kind answer state: what a respondent fills in.
use vstd::prelude::*;

verus! {

#[derive(Clone, Debug)]
pub struct ShortAnswerValue {
    pub text: String,
}

#[derive(Clone, Debug)]
pub struct ParagraphValue {
    pub text: String,
}

/// The selected option; empty while unanswered.
#[derive(Clone, Debug)]
pub struct MultipleChoiceValue {
    pub choice: String,
}

/// One flag per option of the configuration.
#[derive(Clone, Debug)]
pub struct CheckboxesValue {
    pub choices: Vec<bool>,
}

/// The selected option; empty while unanswered.
#[derive(Clone, Debug)]
pub struct DropdownValue {
    pub choice: String,
}

#[derive(Clone, Debug)]
pub struct LinearScaleValue {
    pub value: usize,
}

/// The selected column of each row; empty while that row is unanswered.
#[derive(Clone, Debug)]
pub struct MultipleChoiceGridValue {
    pub choices: Vec<String>,
}

/// One flag per cell, row by row.
#[derive(Clone, Debug)]
pub struct CheckboxGridValue {
    pub choices: Vec<Vec<bool>>,
}

#[allow(non_camel_case_types)]
#[derive(Clone, Copy, Debug, PartialEq, Eq, Structural)]
pub enum DayPeriod {
    AM,
    PM,
}

#[derive(Clone, Debug)]
pub struct DateValue {
    pub year: usize,
    pub month: usize,
    pub day: usize,
}

#[derive(Clone, Debug)]
pub struct TimeValue {
    pub hour: usize,
    pub minute: usize,
    pub period: DayPeriod,
}

} // verus!
