//! The closed catalog of question kinds.
use vstd::prelude::*;

verus! {

/// The kind of a question; a configuration and a value of one question
/// always share it.
#[derive(Clone, Copy, Debug, PartialEq, Eq, Structural)]
pub enum QuestionKind {
    ShortAnswer,
    Paragraph,
    MultipleChoice,
    Checkboxes,
    Dropdown,
    LinearScale,
    MultipleChoiceGrid,
    CheckboxGrid,
    Date,
    Time,
}

/// Every kind, in the order in which a kind menu lists them.
pub open spec fn catalog() -> Seq<QuestionKind> {
    seq![
        QuestionKind::ShortAnswer,
        QuestionKind::Paragraph,
        QuestionKind::MultipleChoice,
        QuestionKind::Checkboxes,
        QuestionKind::Dropdown,
        QuestionKind::LinearScale,
        QuestionKind::MultipleChoiceGrid,
        QuestionKind::CheckboxGrid,
        QuestionKind::Date,
        QuestionKind::Time,
    ]
}

/// The label under which a kind is shown.
pub open spec fn kind_label(k: QuestionKind) -> Seq<char> {
    match k {
        QuestionKind::ShortAnswer => "Short answer"@,
        QuestionKind::Paragraph => "Paragraph"@,
        QuestionKind::MultipleChoice => "Multiple choice"@,
        QuestionKind::Checkboxes => "Checkboxes"@,
        QuestionKind::Dropdown => "Dropdown"@,
        QuestionKind::LinearScale => "Linear scale"@,
        QuestionKind::MultipleChoiceGrid => "Multiple choice grid"@,
        QuestionKind::CheckboxGrid => "Checkbox grid"@,
        QuestionKind::Date => "Date"@,
        QuestionKind::Time => "Time"@,
    }
}

impl QuestionKind {
    /// The whole catalog in display order.
    pub fn all_kinds() -> (r: Vec<QuestionKind>)
        ensures
            r@ == catalog(),
    {
        let r = vec![
            QuestionKind::ShortAnswer,
            QuestionKind::Paragraph,
            QuestionKind::MultipleChoice,
            QuestionKind::Checkboxes,
            QuestionKind::Dropdown,
            QuestionKind::LinearScale,
            QuestionKind::MultipleChoiceGrid,
            QuestionKind::CheckboxGrid,
            QuestionKind::Date,
            QuestionKind::Time,
        ];
        assert(r@ =~= catalog());
        r
    }

    /// The human label of the kind ("Short answer", "Checkbox grid", ...).
    pub fn display_name(&self) -> (r: String)
        ensures
            r@ == kind_label(*self),
    {
        match self {
            QuestionKind::ShortAnswer => String::from_str("Short answer"),
            QuestionKind::Paragraph => String::from_str("Paragraph"),
            QuestionKind::MultipleChoice => String::from_str("Multiple choice"),
            QuestionKind::Checkboxes => String::from_str("Checkboxes"),
            QuestionKind::Dropdown => String::from_str("Dropdown"),
            QuestionKind::LinearScale => String::from_str("Linear scale"),
            QuestionKind::MultipleChoiceGrid => String::from_str("Multiple choice grid"),
            QuestionKind::CheckboxGrid => String::from_str("Checkbox grid"),
            QuestionKind::Date => String::from_str("Date"),
            QuestionKind::Time => String::from_str("Time"),
        }
    }
}

} // verus!
