//! Questions: a name bound to a configuration and a value of one kind.
pub mod config;
pub mod config_types;
pub mod kind;
pub mod numbering;
pub mod value;
pub mod value_types;

use vstd::prelude::*;

use config::{
    ConfigModel, EditError, QuestionConfig, SCALE_END_MIN, SCALE_START_MAX, SCALE_START_MIN, clamp,
    clamped,
    default_config,
};
use numbering::numbered;
use kind::{QuestionKind, catalog};
use value::{QuestionValue, ValueModel, blank_value, fits};
use value_types::DayPeriod;

verus! {

#[derive(Clone, Debug)]
pub struct Question {
    pub name: String,
    pub config: QuestionConfig,
    pub value: QuestionValue,
}

pub struct QuestionModel {
    pub name: Seq<char>,
    pub config: ConfigModel,
    pub value: ValueModel,
}

impl QuestionModel {
    /// The configuration and the value are of one kind.
    pub open spec fn wf(self) -> bool {
        self.config.kind() == self.value.kind()
    }

    pub open spec fn kind(self) -> QuestionKind {
        self.config.kind()
    }
}

impl QuestionModel {
    pub open spec fn with_value(self, v: ValueModel) -> QuestionModel {
        QuestionModel { value: v, ..self }
    }

    /// The options that a single-choice question offers.
    pub open spec fn is_single_choice(self) -> bool {
        self.config is MultipleChoice || self.config is Dropdown
    }
}

/// The answer `v` with `choice` as its selected option.
pub open spec fn with_choice(v: ValueModel, choice: Seq<char>) -> ValueModel {
    match v {
        ValueModel::MultipleChoice { .. } => ValueModel::MultipleChoice { choice },
        ValueModel::Dropdown { .. } => ValueModel::Dropdown { choice },
        _ => v,
    }
}

/// `flags` with the flag at `i` flipped.
pub open spec fn flipped(flags: Seq<bool>, i: int) -> Seq<bool> {
    flags.update(i, !flags[i])
}

/// Bounds that a date answer is held within (a day is not checked against its month).
pub const YEAR_MAX: usize = 9999;
pub const MONTH_MAX: usize = 12;
pub const DAY_MAX: usize = 31;
/// Bounds that a time answer is held within.
pub const HOUR_MAX: usize = 12;
pub const MINUTE_MAX: usize = 59;

/// A question of kind `k` as it stands right after the kind was chosen.
pub open spec fn fresh_question(name: Seq<char>, k: QuestionKind) -> QuestionModel {
    QuestionModel {
        name,
        config: default_config(k),
        value: blank_value(default_config(k)),
    }
}

impl View for Question {
    type V = QuestionModel;

    open spec fn view(&self) -> QuestionModel {
        QuestionModel { name: self.name@, config: self.config@, value: self.value@ }
    }
}

impl Question {
    /// A short-answer question named "Question".
    pub fn new() -> (r: Question)
        ensures
            r@ == fresh_question("Question"@, QuestionKind::ShortAnswer),
            r@.wf(),
    {
        Question {
            name: String::from_str("Question"),
            config: QuestionConfig::default_for(QuestionKind::ShortAnswer),
            value: QuestionValue::default_for(QuestionKind::ShortAnswer),
        }
    }

    /// The (configuration, value) pair of every kind, in catalog order.
    pub fn types_list() -> (r: Vec<(QuestionConfig, QuestionValue)>)
        ensures
            r@.len() == catalog().len(),
            forall|i: int|
                0 <= i < r@.len() ==> {
                    &&& (#[trigger] r@[i]).0@ == default_config(catalog()[i])
                    &&& r@[i].1@ == blank_value(default_config(catalog()[i]))
                },
    {
        let kinds = QuestionKind::all_kinds();
        let mut r: Vec<(QuestionConfig, QuestionValue)> = Vec::new();
        let mut i: usize = 0;
        while i < kinds.len()
            invariant
                kinds@ == catalog(),
                i <= kinds@.len(),
                r@.len() == i,
                forall|j: int|
                    0 <= j < i ==> {
                        &&& (#[trigger] r@[j]).0@ == default_config(catalog()[j])
                        &&& r@[j].1@ == blank_value(default_config(catalog()[j]))
                    },
            decreases kinds@.len() - i,
        {
            r.push((QuestionConfig::default_for(kinds[i]), QuestionValue::default_for(kinds[i])));
            i = i + 1;
        }
        r
    }

    /// Whether the configuration and the value are of one kind.
    pub fn is_paired(&self) -> (r: bool)
        ensures
            r == self@.wf(),
    {
        self.config.kind() == self.value.kind()
    }

    /// A copy with the same name, configuration and answer.
    pub fn duplicate(&self) -> (r: Question)
        ensures
            r@ == self@,
    {
        Question {
            name: self.name.clone(),
            config: self.config.duplicate(),
            value: self.value.duplicate(),
        }
    }

    pub fn kind(&self) -> (r: QuestionKind)
        ensures
            r == self@.kind(),
    {
        self.config.kind()
    }

    /// Replaces the configuration and the value together by the defaults of
    /// kind `k`; the name stays.
    pub fn switch_kind(&mut self, k: QuestionKind)
        ensures
            final(self)@ == fresh_question(old(self)@.name, k),
            final(self)@.wf(),
            final(self)@.kind() == k,
    {
        self.config = QuestionConfig::default_for(k);
        self.value = QuestionValue::default_for(k);
    }

    /// Answers a free-text question with `text`.
    pub fn set_text(&mut self, text: String) -> (r: Result<(), EditError>)
        requires
            old(self)@.wf(),
        ensures
            final(self)@.wf(),
            (old(self)@.config is ShortAnswer) ==> r is Ok && final(self)@ == old(self)@.with_value(
                ValueModel::ShortAnswer { text: text@ },
            ),
            (old(self)@.config is Paragraph) ==> r is Ok && final(self)@ == old(self)@.with_value(
                ValueModel::Paragraph { text: text@ },
            ),
            !(old(self)@.config is ShortAnswer || old(self)@.config is Paragraph) ==> r == Err::<
                (),
                EditError,
            >(EditError::WrongKind) && final(self)@ == old(self)@,
    {
        match &mut self.value {
            QuestionValue::ShortAnswer(v) => {
                v.text = text;
                Ok(())
            },
            QuestionValue::Paragraph(v) => {
                v.text = text;
                Ok(())
            },
            _ => Err(EditError::WrongKind),
        }
    }

    /// Selects the option at `index` of a multiple-choice or dropdown question.
    pub fn select_option(&mut self, index: usize) -> (r: Result<(), EditError>)
        requires
            old(self)@.wf(),
        ensures
            final(self)@.wf(),
            !old(self)@.is_single_choice() ==> r == Err::<(), EditError>(EditError::WrongKind),
            old(self)@.is_single_choice() && index >= old(self)@.config.options().len() ==> r
                == Err::<(), EditError>(EditError::IndexOutOfRange),
            old(self)@.is_single_choice() && index < old(self)@.config.options().len() ==> r is Ok
                && final(self)@ == old(self)@.with_value(
                with_choice(old(self)@.value, old(self)@.config.options()[index as int]),
            ),
            r is Err ==> final(self)@ == old(self)@,
    {
        match (&self.config, &mut self.value) {
            (QuestionConfig::MultipleChoice(c), QuestionValue::MultipleChoice(v)) => {
                if index < c.options.len() {
                    v.choice = c.options[index].clone();
                    Ok(())
                } else {
                    Err(EditError::IndexOutOfRange)
                }
            },
            (QuestionConfig::Dropdown(c), QuestionValue::Dropdown(v)) => {
                if index < c.options.len() {
                    v.choice = c.options[index].clone();
                    Ok(())
                } else {
                    Err(EditError::IndexOutOfRange)
                }
            },
            _ => Err(EditError::WrongKind),
        }
    }

    /// Flips the box at `index` of a checkboxes question.
    pub fn toggle_option(&mut self, index: usize) -> (r: Result<(), EditError>)
        requires
            old(self)@.wf(),
        ensures
            final(self)@.wf(),
            match old(self)@.value {
                ValueModel::Checkboxes { choices } => if index < choices.len() {
                    r is Ok && final(self)@ == old(self)@.with_value(
                        ValueModel::Checkboxes { choices: flipped(choices, index as int) },
                    )
                } else {
                    r == Err::<(), EditError>(EditError::IndexOutOfRange)
                },
                _ => r == Err::<(), EditError>(EditError::WrongKind),
            },
            r is Err ==> final(self)@ == old(self)@,
    {
        match &mut self.value {
            QuestionValue::Checkboxes(v) => {
                if index < v.choices.len() {
                    let b = v.choices[index];
                    v.choices.set(index, !b);
                    Ok(())
                } else {
                    Err(EditError::IndexOutOfRange)
                }
            },
            _ => Err(EditError::WrongKind),
        }
    }

    /// Picks `point` on a linear scale; a point outside the scale is refused.
    pub fn select_point(&mut self, point: usize) -> (r: Result<(), EditError>)
        requires
            old(self)@.wf(),
        ensures
            final(self)@.wf(),
            match old(self)@.config {
                ConfigModel::LinearScale { start, end, .. } => if start <= point <= end {
                    r is Ok && final(self)@ == old(self)@.with_value(
                        ValueModel::LinearScale { value: point as nat },
                    )
                } else {
                    r == Err::<(), EditError>(EditError::IndexOutOfRange)
                },
                _ => r == Err::<(), EditError>(EditError::WrongKind),
            },
            r is Err ==> final(self)@ == old(self)@,
    {
        match (&self.config, &mut self.value) {
            (QuestionConfig::LinearScale(c), QuestionValue::LinearScale(v)) => {
                if c.start <= point && point <= c.end {
                    v.value = point;
                    Ok(())
                } else {
                    Err(EditError::IndexOutOfRange)
                }
            },
            _ => Err(EditError::WrongKind),
        }
    }

    /// Selects column `column` in row `row` of a multiple-choice grid.
    pub fn select_cell(&mut self, row: usize, column: usize) -> (r: Result<(), EditError>)
        requires
            old(self)@.wf(),
        ensures
            final(self)@.wf(),
            match (old(self)@.config, old(self)@.value) {
                (
                    ConfigModel::MultipleChoiceGrid { columns, .. },
                    ValueModel::MultipleChoiceGrid { choices },
                ) => if row < choices.len() && column < columns.len() {
                    r is Ok && final(self)@ == old(self)@.with_value(
                        ValueModel::MultipleChoiceGrid {
                            choices: choices.update(row as int, columns[column as int]),
                        },
                    )
                } else {
                    r == Err::<(), EditError>(EditError::IndexOutOfRange)
                },
                _ => r == Err::<(), EditError>(EditError::WrongKind),
            },
            r is Err ==> final(self)@ == old(self)@,
    {
        match (&self.config, &mut self.value) {
            (QuestionConfig::MultipleChoiceGrid(c), QuestionValue::MultipleChoiceGrid(v)) => {
                if row < v.choices.len() && column < c.columns.len() {
                    v.choices.set(row, c.columns[column].clone());
                    assert(v.choices.deep_view() =~= old(self)@.value->MultipleChoiceGrid_choices.update(
                        row as int,
                        old(self)@.config->MultipleChoiceGrid_columns[column as int],
                    ));
                    Ok(())
                } else {
                    Err(EditError::IndexOutOfRange)
                }
            },
            _ => Err(EditError::WrongKind),
        }
    }

    /// Flips the box at (`row`, `column`) of a checkbox grid.
    pub fn toggle_cell(&mut self, row: usize, column: usize) -> (r: Result<(), EditError>)
        requires
            old(self)@.wf(),
        ensures
            final(self)@.wf(),
            match old(self)@.value {
                ValueModel::CheckboxGrid { choices } => if row < choices.len() && column
                    < choices[row as int].len() {
                    r is Ok && final(self)@ == old(self)@.with_value(
                        ValueModel::CheckboxGrid {
                            choices: choices.update(
                                row as int,
                                flipped(choices[row as int], column as int),
                            ),
                        },
                    )
                } else {
                    r == Err::<(), EditError>(EditError::IndexOutOfRange)
                },
                _ => r == Err::<(), EditError>(EditError::WrongKind),
            },
            r is Err ==> final(self)@ == old(self)@,
    {
        match &mut self.value {
            QuestionValue::CheckboxGrid(v) => {
                if row < v.choices.len() && column < v.choices[row].len() {
                    let ghost before = v.choices@[row as int]@;
                    let mut line = v.choices[row].clone();
                    assert(line@ =~= before);
                    let b = line[column];
                    line.set(column, !b);
                    assert(line.deep_view() =~= flipped(before, column as int));
                    assert forall|i: int| 0 <= i < v.choices@.len() implies (#[trigger] v.choices@[i]).deep_view() =~= v.choices@[i]@ by {}
                    v.choices.set(row, line);
                    assert(v.choices.deep_view() =~= old(self)@.value->CheckboxGrid_choices.update(
                        row as int,
                        flipped(old(self)@.value->CheckboxGrid_choices[row as int], column as int),
                    ));
                    Ok(())
                } else {
                    Err(EditError::IndexOutOfRange)
                }
            },
            _ => Err(EditError::WrongKind),
        }
    }

    /// Answers a date question; each field is held within its bounds.
    pub fn set_date(&mut self, year: usize, month: usize, day: usize) -> (r: Result<(), EditError>)
        requires
            old(self)@.wf(),
        ensures
            final(self)@.wf(),
            (old(self)@.config is Date) ==> r is Ok && final(self)@ == old(self)@.with_value(
                ValueModel::Date {
                    year: clamped(year as nat, 0, YEAR_MAX as nat),
                    month: clamped(month as nat, 1, MONTH_MAX as nat),
                    day: clamped(day as nat, 1, DAY_MAX as nat),
                },
            ),
            !(old(self)@.config is Date) ==> r == Err::<(), EditError>(EditError::WrongKind)
                && final(self)@ == old(self)@,
    {
        match &mut self.value {
            QuestionValue::Date(v) => {
                v.year = clamp(year, 0, YEAR_MAX);
                v.month = clamp(month, 1, MONTH_MAX);
                v.day = clamp(day, 1, DAY_MAX);
                Ok(())
            },
            _ => Err(EditError::WrongKind),
        }
    }

    /// Answers a time question; hour and minute are held within their bounds.
    pub fn set_time(&mut self, hour: usize, minute: usize, period: DayPeriod) -> (r: Result<
        (),
        EditError,
    >)
        requires
            old(self)@.wf(),
        ensures
            final(self)@.wf(),
            (old(self)@.config is Time) ==> r is Ok && final(self)@ == old(self)@.with_value(
                ValueModel::Time {
                    hour: clamped(hour as nat, 1, HOUR_MAX as nat),
                    minute: clamped(minute as nat, 0, MINUTE_MAX as nat),
                    period,
                },
            ),
            !(old(self)@.config is Time) ==> r == Err::<(), EditError>(EditError::WrongKind)
                && final(self)@ == old(self)@,
    {
        match &mut self.value {
            QuestionValue::Time(v) => {
                v.hour = clamp(hour, 1, HOUR_MAX);
                v.minute = clamp(minute, 0, MINUTE_MAX);
                v.period = period;
                Ok(())
            },
            _ => Err(EditError::WrongKind),
        }
    }

    /// Clears the answer: the value becomes the unanswered state sized to the
    /// current configuration. The name and the configuration stay.
    pub fn reset_value(&mut self)
        requires
            old(self)@.wf(),
        ensures
            final(self)@ == (QuestionModel { value: blank_value(old(self)@.config), ..old(self)@ }),
            final(self)@.wf(),
    {
        self.value = QuestionValue::blank_for(&self.config);
    }
}

/// Right after a kind is chosen, the configuration and the value are both of
/// that kind, the value already fits the configuration, and clearing the
/// answer changes nothing.
pub proof fn lemma_fresh_question_is_blank(name: Seq<char>, k: QuestionKind)
    ensures
        fresh_question(name, k).wf(),
        fresh_question(name, k).config.kind() == k,
        fresh_question(name, k).value.kind() == k,
        fits(fresh_question(name, k).config, fresh_question(name, k).value),
        fresh_question(name, k).with_value(blank_value(fresh_question(name, k).config))
            == fresh_question(name, k),
{
    lemma_blank_fits(default_config(k));
}

/// Switching a question to kind `k` leaves its configuration and its value
/// both of kind `k`, whatever the question held before.
pub proof fn lemma_switch_kind_pairs(q: QuestionModel, k: QuestionKind)
    ensures
        fresh_question(q.name, k).config.kind() == k,
        fresh_question(q.name, k).value.kind() == k,
        fresh_question(q.name, k).name == q.name,
{
}

/// The cleared answer of a valid configuration fits it: every list of flags
/// or choices has the configuration's length, a scale answer lies on the scale.
pub proof fn lemma_blank_fits(c: ConfigModel)
    requires
        c.valid(),
    ensures
        fits(c, blank_value(c)),
        blank_value(c).kind() == c.kind(),
{
    match c {
        ConfigModel::CheckboxGrid { rows, columns } => {
            let v = blank_value(c);
            assert forall|i: int| 0 <= i < rows.len() implies (#[trigger] v->CheckboxGrid_choices[i]).len()
                == columns.len() by {}
        },
        _ => {},
    }
}

/// Clearing a question sizes its checkboxes to its options, and a checkbox
/// grid to its rows and columns, however out of shape the old answer was.
pub proof fn lemma_reset_sizes_choices(q: QuestionModel)
    requires
        q.wf(),
    ensures
        q.config is Checkboxes ==> blank_value(q.config)->Checkboxes_choices.len()
            == q.config.options().len(),
        q.config is CheckboxGrid ==> {
            &&& blank_value(q.config)->CheckboxGrid_choices.len() == q.config.rows().len()
            &&& forall|i: int|
                0 <= i < q.config.rows().len() ==> (#[trigger] blank_value(
                    q.config,
                )->CheckboxGrid_choices[i]).len() == q.config.columns().len()
        },
{
}

/// Adding or removing an option and then clearing the answer leaves exactly
/// one checkbox per option.
pub proof fn lemma_edit_then_reset_sizes_checkboxes(c: ConfigModel, i: int)
    requires
        c is Checkboxes,
        0 <= i < c.options().len(),
    ensures
        blank_value(c.with_options(c.options().push(numbered("Option"@, c.options().len() + 1))))->Checkboxes_choices.len()
            == c.options().len() + 1,
        blank_value(c.with_options(c.options().remove(i)))->Checkboxes_choices.len()
            == c.options().len() - 1,
{
}

/// Clearing a scale answer puts it on the first point of the scale; after the
/// first point is moved, clearing puts the answer on the new first point,
/// never on the old answer.
pub proof fn lemma_scale_reset_follows_start(q: QuestionModel, start: nat)
    requires
        q.wf(),
        q.config is LinearScale,
    ensures
        blank_value(q.config) == (ValueModel::LinearScale { value: q.config->LinearScale_start }),
        blank_value(q.config.with_start(clamped(start, SCALE_START_MIN as nat, SCALE_START_MAX as nat)))
            == (ValueModel::LinearScale {
            value: clamped(start, SCALE_START_MIN as nat, SCALE_START_MAX as nat),
        }),
        q.config->LinearScale_end >= SCALE_END_MIN ==> fits(
            q.config.with_start(clamped(start, SCALE_START_MIN as nat, SCALE_START_MAX as nat)),
            blank_value(
                q.config.with_start(clamped(start, SCALE_START_MIN as nat, SCALE_START_MAX as nat)),
            ),
        ),
{
}

} // verus!
