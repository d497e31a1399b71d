//! The answer state of a question, as one tagged value over every kind.
use vstd::prelude::*;

use super::config::{ConfigModel, QuestionConfig, copy_labels, default_config};
use super::kind::{QuestionKind, catalog};
use super::value_types::{
    CheckboxGridValue, CheckboxesValue, DateValue, DayPeriod, DropdownValue, LinearScaleValue,
    MultipleChoiceGridValue, MultipleChoiceValue, ParagraphValue, ShortAnswerValue, TimeValue,
};

verus! {

#[derive(Clone, Debug)]
pub enum QuestionValue {
    ShortAnswer(ShortAnswerValue),
    Paragraph(ParagraphValue),
    MultipleChoice(MultipleChoiceValue),
    Checkboxes(CheckboxesValue),
    Dropdown(DropdownValue),
    LinearScale(LinearScaleValue),
    MultipleChoiceGrid(MultipleChoiceGridValue),
    CheckboxGrid(CheckboxGridValue),
    Date(DateValue),
    Time(TimeValue),
}

/// What an answer holds, with every text as its characters.
#[allow(inconsistent_fields)]
pub enum ValueModel {
    ShortAnswer { text: Seq<char> },
    Paragraph { text: Seq<char> },
    MultipleChoice { choice: Seq<char> },
    Checkboxes { choices: Seq<bool> },
    Dropdown { choice: Seq<char> },
    LinearScale { value: nat },
    MultipleChoiceGrid { choices: Seq<Seq<char>> },
    CheckboxGrid { choices: Seq<Seq<bool>> },
    Date { year: nat, month: nat, day: nat },
    Time { hour: nat, minute: nat, period: DayPeriod },
}

impl ValueModel {
    pub open spec fn kind(self) -> QuestionKind {
        match self {
            ValueModel::ShortAnswer { .. } => QuestionKind::ShortAnswer,
            ValueModel::Paragraph { .. } => QuestionKind::Paragraph,
            ValueModel::MultipleChoice { .. } => QuestionKind::MultipleChoice,
            ValueModel::Checkboxes { .. } => QuestionKind::Checkboxes,
            ValueModel::Dropdown { .. } => QuestionKind::Dropdown,
            ValueModel::LinearScale { .. } => QuestionKind::LinearScale,
            ValueModel::MultipleChoiceGrid { .. } => QuestionKind::MultipleChoiceGrid,
            ValueModel::CheckboxGrid { .. } => QuestionKind::CheckboxGrid,
            ValueModel::Date { .. } => QuestionKind::Date,
            ValueModel::Time { .. } => QuestionKind::Time,
        }
    }
}

/// `n` copies of `false`.
pub open spec fn unchecked(n: nat) -> Seq<bool> {
    Seq::new(n, |i: int| false)
}

/// The unanswered state of a question with configuration `c`, sized to it.
pub open spec fn blank_value(c: ConfigModel) -> ValueModel {
    match c {
        ConfigModel::ShortAnswer => ValueModel::ShortAnswer { text: Seq::empty() },
        ConfigModel::Paragraph => ValueModel::Paragraph { text: Seq::empty() },
        ConfigModel::MultipleChoice { .. } => ValueModel::MultipleChoice { choice: Seq::empty() },
        ConfigModel::Checkboxes { options } => ValueModel::Checkboxes {
            choices: unchecked(options.len()),
        },
        ConfigModel::Dropdown { .. } => ValueModel::Dropdown { choice: Seq::empty() },
        ConfigModel::LinearScale { start, .. } => ValueModel::LinearScale { value: start },
        ConfigModel::MultipleChoiceGrid { rows, .. } => ValueModel::MultipleChoiceGrid {
            choices: Seq::new(rows.len(), |i: int| Seq::<char>::empty()),
        },
        ConfigModel::CheckboxGrid { rows, columns } => ValueModel::CheckboxGrid {
            choices: Seq::new(rows.len(), |i: int| unchecked(columns.len())),
        },
        ConfigModel::Date => ValueModel::Date { year: 0, month: 1, day: 1 },
        ConfigModel::Time => ValueModel::Time { hour: 1, minute: 0, period: DayPeriod::AM },
    }
}

/// The shape rules that tie an answer to its configuration.
pub open spec fn fits(c: ConfigModel, v: ValueModel) -> bool {
    match (c, v) {
        (ConfigModel::ShortAnswer, ValueModel::ShortAnswer { .. }) => true,
        (ConfigModel::Paragraph, ValueModel::Paragraph { .. }) => true,
        (ConfigModel::MultipleChoice { options }, ValueModel::MultipleChoice { choice }) => choice
            == Seq::<char>::empty() || options.contains(choice),
        (ConfigModel::Checkboxes { options }, ValueModel::Checkboxes { choices }) => choices.len()
            == options.len(),
        (ConfigModel::Dropdown { options }, ValueModel::Dropdown { choice }) => choice
            == Seq::<char>::empty() || options.contains(choice),
        (ConfigModel::LinearScale { start, end, .. }, ValueModel::LinearScale { value }) => start
            <= value <= end,
        (ConfigModel::MultipleChoiceGrid { rows, .. }, ValueModel::MultipleChoiceGrid {
            choices,
        }) => choices.len() == rows.len(),
        (ConfigModel::CheckboxGrid { rows, columns }, ValueModel::CheckboxGrid { choices }) => {
            &&& choices.len() == rows.len()
            &&& forall|i: int| 0 <= i < choices.len() ==> #[trigger] choices[i].len() == columns.len()
        },
        (ConfigModel::Date, ValueModel::Date { month, day, .. }) => 1 <= month <= 12 && 1 <= day
            <= 31,
        (ConfigModel::Time, ValueModel::Time { hour, minute, .. }) => 1 <= hour <= 12 && minute
            <= 59,
        _ => false,
    }
}

impl View for QuestionValue {
    type V = ValueModel;

    open spec fn view(&self) -> ValueModel {
        match self {
            QuestionValue::ShortAnswer(v) => ValueModel::ShortAnswer { text: v.text@ },
            QuestionValue::Paragraph(v) => ValueModel::Paragraph { text: v.text@ },
            QuestionValue::MultipleChoice(v) => ValueModel::MultipleChoice { choice: v.choice@ },
            QuestionValue::Checkboxes(v) => ValueModel::Checkboxes { choices: v.choices@ },
            QuestionValue::Dropdown(v) => ValueModel::Dropdown { choice: v.choice@ },
            QuestionValue::LinearScale(v) => ValueModel::LinearScale { value: v.value as nat },
            QuestionValue::MultipleChoiceGrid(v) => ValueModel::MultipleChoiceGrid {
                choices: v.choices.deep_view(),
            },
            QuestionValue::CheckboxGrid(v) => ValueModel::CheckboxGrid {
                choices: v.choices.deep_view(),
            },
            QuestionValue::Date(v) => ValueModel::Date {
                year: v.year as nat,
                month: v.month as nat,
                day: v.day as nat,
            },
            QuestionValue::Time(v) => ValueModel::Time {
                hour: v.hour as nat,
                minute: v.minute as nat,
                period: v.period,
            },
        }
    }
}

/// `n` unchecked flags.
pub fn unchecked_flags(n: usize) -> (r: Vec<bool>)
    ensures
        r@ == unchecked(n as nat),
{
    let mut r: Vec<bool> = Vec::new();
    let mut i: usize = 0;
    while i < n
        invariant
            i <= n,
            r@ == unchecked(i as nat),
        decreases n - i,
    {
        r.push(false);
        i = i + 1;
        assert(r@ =~= unchecked(i as nat));
    }
    r
}

/// `n` empty texts.
pub fn empty_texts(n: usize) -> (r: Vec<String>)
    ensures
        r.deep_view() == Seq::new(n as nat, |i: int| Seq::<char>::empty()),
{
    let mut r: Vec<String> = Vec::new();
    let mut i: usize = 0;
    while i < n
        invariant
            i <= n,
            r@.len() == i,
            forall|j: int| 0 <= j < i ==> (#[trigger] r@[j])@ == Seq::<char>::empty(),
        decreases n - i,
    {
        r.push(String::new());
        i = i + 1;
    }
    assert(r.deep_view() =~= Seq::new(n as nat, |i: int| Seq::<char>::empty()));
    r
}

/// A `rows` by `columns` grid of unchecked flags.
pub fn unchecked_grid(rows: usize, columns: usize) -> (r: Vec<Vec<bool>>)
    ensures
        r.deep_view() == Seq::new(rows as nat, |i: int| unchecked(columns as nat)),
{
    let mut r: Vec<Vec<bool>> = Vec::new();
    let mut i: usize = 0;
    while i < rows
        invariant
            i <= rows,
            r@.len() == i,
            forall|j: int| 0 <= j < i ==> (#[trigger] r@[j])@ == unchecked(columns as nat),
        decreases rows - i,
    {
        r.push(unchecked_flags(columns));
        i = i + 1;
    }
    assert forall|j: int| 0 <= j < rows implies r@[j].deep_view() == unchecked(columns as nat) by {
        assert(r@[j].deep_view() =~= r@[j]@);
    }
    assert(r.deep_view() =~= Seq::new(rows as nat, |i: int| unchecked(columns as nat)));
    r
}

/// A copy of a list of flags.
pub fn copy_flags(flags: &Vec<bool>) -> (r: Vec<bool>)
    ensures
        r@ == flags@,
{
    let mut r: Vec<bool> = Vec::new();
    let mut i: usize = 0;
    while i < flags.len()
        invariant
            i <= flags@.len(),
            r@ == flags@.subrange(0, i as int),
        decreases flags@.len() - i,
    {
        r.push(flags[i]);
        i = i + 1;
        assert(r@ =~= flags@.subrange(0, i as int));
    }
    assert(r@ =~= flags@);
    r
}

/// A copy of a grid of flags.
pub fn copy_grid(grid: &Vec<Vec<bool>>) -> (r: Vec<Vec<bool>>)
    ensures
        r.deep_view() == grid.deep_view(),
{
    let mut r: Vec<Vec<bool>> = Vec::new();
    let mut i: usize = 0;
    while i < grid.len()
        invariant
            i <= grid@.len(),
            r@.len() == i,
            forall|j: int| 0 <= j < i ==> (#[trigger] r@[j])@ == grid@[j]@,
        decreases grid@.len() - i,
    {
        r.push(copy_flags(&grid[i]));
        i = i + 1;
    }
    assert(r.deep_view() =~= grid.deep_view()) by {
        assert forall|j: int| 0 <= j < r@.len() implies (#[trigger] r@[j]).deep_view() == grid@[j].deep_view() by {
            assert(r@[j].deep_view() =~= r@[j]@);
            assert(grid@[j].deep_view() =~= grid@[j]@);
        }
    }
    r
}

impl QuestionValue {
    pub fn kind(&self) -> (r: QuestionKind)
        ensures
            r == self@.kind(),
    {
        match self {
            QuestionValue::ShortAnswer(_) => QuestionKind::ShortAnswer,
            QuestionValue::Paragraph(_) => QuestionKind::Paragraph,
            QuestionValue::MultipleChoice(_) => QuestionKind::MultipleChoice,
            QuestionValue::Checkboxes(_) => QuestionKind::Checkboxes,
            QuestionValue::Dropdown(_) => QuestionKind::Dropdown,
            QuestionValue::LinearScale(_) => QuestionKind::LinearScale,
            QuestionValue::MultipleChoiceGrid(_) => QuestionKind::MultipleChoiceGrid,
            QuestionValue::CheckboxGrid(_) => QuestionKind::CheckboxGrid,
            QuestionValue::Date(_) => QuestionKind::Date,
            QuestionValue::Time(_) => QuestionKind::Time,
        }
    }

    /// Whether two answers are of one kind, whatever they hold.
    pub fn same_kind(&self, other: &QuestionValue) -> (r: bool)
        ensures
            r == (self@.kind() == other@.kind()),
    {
        self.kind() == other.kind()
    }

    /// The unanswered value of a fresh question of the given kind.
    pub fn default_for(k: QuestionKind) -> (r: QuestionValue)
        ensures
            r@ == blank_value(default_config(k)),
    {
        match k {
            QuestionKind::ShortAnswer => QuestionValue::ShortAnswer(
                ShortAnswerValue { text: String::new() },
            ),
            QuestionKind::Paragraph => QuestionValue::Paragraph(ParagraphValue { text: String::new() }),
            QuestionKind::MultipleChoice => QuestionValue::MultipleChoice(
                MultipleChoiceValue { choice: String::new() },
            ),
            QuestionKind::Checkboxes => QuestionValue::Checkboxes(
                CheckboxesValue { choices: unchecked_flags(1) },
            ),
            QuestionKind::Dropdown => QuestionValue::Dropdown(DropdownValue { choice: String::new() }),
            QuestionKind::LinearScale => QuestionValue::LinearScale(LinearScaleValue { value: 1 }),
            QuestionKind::MultipleChoiceGrid => QuestionValue::MultipleChoiceGrid(
                MultipleChoiceGridValue { choices: empty_texts(1) },
            ),
            QuestionKind::CheckboxGrid => QuestionValue::CheckboxGrid(
                CheckboxGridValue { choices: unchecked_grid(1, 1) },
            ),
            QuestionKind::Date => QuestionValue::Date(DateValue { year: 0, month: 1, day: 1 }),
            QuestionKind::Time => QuestionValue::Time(
                TimeValue { hour: 1, minute: 0, period: DayPeriod::AM },
            ),
        }
    }

    /// The unanswered value for configuration `config`, sized to it.
    pub fn blank_for(config: &QuestionConfig) -> (r: QuestionValue)
        ensures
            r@ == blank_value(config@),
    {
        match config {
            QuestionConfig::ShortAnswer(_) => QuestionValue::ShortAnswer(
                ShortAnswerValue { text: String::new() },
            ),
            QuestionConfig::Paragraph(_) => QuestionValue::Paragraph(
                ParagraphValue { text: String::new() },
            ),
            QuestionConfig::MultipleChoice(_) => QuestionValue::MultipleChoice(
                MultipleChoiceValue { choice: String::new() },
            ),
            QuestionConfig::Checkboxes(c) => QuestionValue::Checkboxes(
                CheckboxesValue { choices: unchecked_flags(c.options.len()) },
            ),
            QuestionConfig::Dropdown(_) => QuestionValue::Dropdown(
                DropdownValue { choice: String::new() },
            ),
            QuestionConfig::LinearScale(c) => QuestionValue::LinearScale(
                LinearScaleValue { value: c.start },
            ),
            QuestionConfig::MultipleChoiceGrid(c) => QuestionValue::MultipleChoiceGrid(
                MultipleChoiceGridValue { choices: empty_texts(c.rows.len()) },
            ),
            QuestionConfig::CheckboxGrid(c) => QuestionValue::CheckboxGrid(
                CheckboxGridValue { choices: unchecked_grid(c.rows.len(), c.columns.len()) },
            ),
            QuestionConfig::Date(_) => QuestionValue::Date(DateValue { year: 0, month: 1, day: 1 }),
            QuestionConfig::Time(_) => QuestionValue::Time(
                TimeValue { hour: 1, minute: 0, period: DayPeriod::AM },
            ),
        }
    }

    /// A copy holding the same answer.
    pub fn duplicate(&self) -> (r: QuestionValue)
        ensures
            r@ == self@,
    {
        match self {
            QuestionValue::ShortAnswer(v) => QuestionValue::ShortAnswer(
                ShortAnswerValue { text: v.text.clone() },
            ),
            QuestionValue::Paragraph(v) => QuestionValue::Paragraph(
                ParagraphValue { text: v.text.clone() },
            ),
            QuestionValue::MultipleChoice(v) => QuestionValue::MultipleChoice(
                MultipleChoiceValue { choice: v.choice.clone() },
            ),
            QuestionValue::Checkboxes(v) => QuestionValue::Checkboxes(
                CheckboxesValue { choices: copy_flags(&v.choices) },
            ),
            QuestionValue::Dropdown(v) => QuestionValue::Dropdown(
                DropdownValue { choice: v.choice.clone() },
            ),
            QuestionValue::LinearScale(v) => QuestionValue::LinearScale(
                LinearScaleValue { value: v.value },
            ),
            QuestionValue::MultipleChoiceGrid(v) => QuestionValue::MultipleChoiceGrid(
                MultipleChoiceGridValue { choices: copy_labels(&v.choices) },
            ),
            QuestionValue::CheckboxGrid(v) => QuestionValue::CheckboxGrid(
                CheckboxGridValue { choices: copy_grid(&v.choices) },
            ),
            QuestionValue::Date(v) => QuestionValue::Date(
                DateValue { year: v.year, month: v.month, day: v.day },
            ),
            QuestionValue::Time(v) => QuestionValue::Time(
                TimeValue { hour: v.hour, minute: v.minute, period: v.period },
            ),
        }
    }

    /// The default value of every kind, in catalog order.
    pub fn types_list() -> (r: Vec<QuestionValue>)
        ensures
            r@.len() == catalog().len(),
            forall|i: int|
                0 <= i < r@.len() ==> #[trigger] r@[i]@ == blank_value(default_config(catalog()[i])),
    {
        let kinds = QuestionKind::all_kinds();
        let mut r: Vec<QuestionValue> = Vec::new();
        let mut i: usize = 0;
        while i < kinds.len()
            invariant
                kinds@ == catalog(),
                i <= kinds@.len(),
                r@.len() == i,
                forall|j: int|
                    0 <= j < i ==> #[trigger] r@[j]@ == blank_value(default_config(catalog()[j])),
            decreases kinds@.len() - i,
        {
            r.push(QuestionValue::default_for(kinds[i]));
            i = i + 1;
        }
        r
    }
}

} // verus!
