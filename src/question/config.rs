//! The configuration of a question, as one tagged value over every kind.
use vstd::prelude::*;

use super::config_types::{
    CheckboxGridConfig, CheckboxesConfig, DateConfig, DropdownConfig, LinearScaleConfig,
    MultipleChoiceConfig, MultipleChoiceGridConfig, ParagraphConfig, ShortAnswerConfig, TimeConfig,
};
use super::kind::{QuestionKind, catalog, kind_label};
use super::numbering::{numbered, numbered_label};

verus! {

#[derive(Clone, Debug)]
pub enum QuestionConfig {
    ShortAnswer(ShortAnswerConfig),
    Paragraph(ParagraphConfig),
    MultipleChoice(MultipleChoiceConfig),
    Checkboxes(CheckboxesConfig),
    Dropdown(DropdownConfig),
    LinearScale(LinearScaleConfig),
    MultipleChoiceGrid(MultipleChoiceGridConfig),
    CheckboxGrid(CheckboxGridConfig),
    Date(DateConfig),
    Time(TimeConfig),
}

/// What a configuration holds, with every label as its characters.
pub enum ConfigModel {
    ShortAnswer,
    Paragraph,
    MultipleChoice { options: Seq<Seq<char>> },
    Checkboxes { options: Seq<Seq<char>> },
    Dropdown { options: Seq<Seq<char>> },
    LinearScale { start: nat, start_label: Seq<char>, end: nat, end_label: Seq<char> },
    MultipleChoiceGrid { rows: Seq<Seq<char>>, columns: Seq<Seq<char>> },
    CheckboxGrid { rows: Seq<Seq<char>>, columns: Seq<Seq<char>> },
    Date,
    Time,
}

impl ConfigModel {
    pub open spec fn kind(self) -> QuestionKind {
        match self {
            ConfigModel::ShortAnswer => QuestionKind::ShortAnswer,
            ConfigModel::Paragraph => QuestionKind::Paragraph,
            ConfigModel::MultipleChoice { .. } => QuestionKind::MultipleChoice,
            ConfigModel::Checkboxes { .. } => QuestionKind::Checkboxes,
            ConfigModel::Dropdown { .. } => QuestionKind::Dropdown,
            ConfigModel::LinearScale { .. } => QuestionKind::LinearScale,
            ConfigModel::MultipleChoiceGrid { .. } => QuestionKind::MultipleChoiceGrid,
            ConfigModel::CheckboxGrid { .. } => QuestionKind::CheckboxGrid,
            ConfigModel::Date => QuestionKind::Date,
            ConfigModel::Time => QuestionKind::Time,
        }
    }

    /// The kinds whose configuration is one list of options.
    pub open spec fn has_options(self) -> bool {
        ||| self is MultipleChoice
        ||| self is Checkboxes
        ||| self is Dropdown
    }

    pub open spec fn options(self) -> Seq<Seq<char>> {
        match self {
            ConfigModel::MultipleChoice { options } => options,
            ConfigModel::Checkboxes { options } => options,
            ConfigModel::Dropdown { options } => options,
            _ => Seq::empty(),
        }
    }

    pub open spec fn with_options(self, o: Seq<Seq<char>>) -> ConfigModel {
        match self {
            ConfigModel::MultipleChoice { .. } => ConfigModel::MultipleChoice { options: o },
            ConfigModel::Checkboxes { .. } => ConfigModel::Checkboxes { options: o },
            ConfigModel::Dropdown { .. } => ConfigModel::Dropdown { options: o },
            _ => self,
        }
    }

    /// The kinds whose configuration is a grid of rows and columns.
    pub open spec fn is_grid(self) -> bool {
        self is MultipleChoiceGrid || self is CheckboxGrid
    }

    pub open spec fn rows(self) -> Seq<Seq<char>> {
        match self {
            ConfigModel::MultipleChoiceGrid { rows, .. } => rows,
            ConfigModel::CheckboxGrid { rows, .. } => rows,
            _ => Seq::empty(),
        }
    }

    pub open spec fn columns(self) -> Seq<Seq<char>> {
        match self {
            ConfigModel::MultipleChoiceGrid { columns, .. } => columns,
            ConfigModel::CheckboxGrid { columns, .. } => columns,
            _ => Seq::empty(),
        }
    }

    pub open spec fn with_rows(self, r: Seq<Seq<char>>) -> ConfigModel {
        match self {
            ConfigModel::MultipleChoiceGrid { columns, .. } => ConfigModel::MultipleChoiceGrid {
                rows: r,
                columns,
            },
            ConfigModel::CheckboxGrid { columns, .. } => ConfigModel::CheckboxGrid { rows: r, columns },
            _ => self,
        }
    }

    pub open spec fn with_columns(self, c: Seq<Seq<char>>) -> ConfigModel {
        match self {
            ConfigModel::MultipleChoiceGrid { rows, .. } => ConfigModel::MultipleChoiceGrid {
                rows,
                columns: c,
            },
            ConfigModel::CheckboxGrid { rows, .. } => ConfigModel::CheckboxGrid { rows, columns: c },
            _ => self,
        }
    }

    pub open spec fn with_start(self, s: nat) -> ConfigModel {
        match self {
            ConfigModel::LinearScale { start_label, end, end_label, .. } => ConfigModel::LinearScale {
                start: s,
                start_label,
                end,
                end_label,
            },
            _ => self,
        }
    }

    pub open spec fn with_end(self, e: nat) -> ConfigModel {
        match self {
            ConfigModel::LinearScale { start, start_label, end_label, .. } => ConfigModel::LinearScale {
                start,
                start_label,
                end: e,
                end_label,
            },
            _ => self,
        }
    }

    /// The domain rule that a scale runs upwards; other kinds have none.
    pub open spec fn valid(self) -> bool {
        match self {
            ConfigModel::LinearScale { start, end, .. } => start < end,
            _ => true,
        }
    }
}

/// The configuration that a freshly chosen kind starts with.
pub open spec fn default_config(k: QuestionKind) -> ConfigModel {
    match k {
        QuestionKind::ShortAnswer => ConfigModel::ShortAnswer,
        QuestionKind::Paragraph => ConfigModel::Paragraph,
        QuestionKind::MultipleChoice => ConfigModel::MultipleChoice { options: seq!["Option 1"@] },
        QuestionKind::Checkboxes => ConfigModel::Checkboxes { options: seq!["Option 1"@] },
        QuestionKind::Dropdown => ConfigModel::Dropdown { options: seq!["Option 1"@] },
        QuestionKind::LinearScale => ConfigModel::LinearScale {
            start: 1,
            start_label: Seq::empty(),
            end: 5,
            end_label: Seq::empty(),
        },
        QuestionKind::MultipleChoiceGrid => ConfigModel::MultipleChoiceGrid {
            rows: seq!["Row 1"@],
            columns: seq!["Column 1"@],
        },
        QuestionKind::CheckboxGrid => ConfigModel::CheckboxGrid {
            rows: seq!["Row 1"@],
            columns: seq!["Column 1"@],
        },
        QuestionKind::Date => ConfigModel::Date,
        QuestionKind::Time => ConfigModel::Time,
    }
}

impl View for QuestionConfig {
    type V = ConfigModel;

    open spec fn view(&self) -> ConfigModel {
        match self {
            QuestionConfig::ShortAnswer(_) => ConfigModel::ShortAnswer,
            QuestionConfig::Paragraph(_) => ConfigModel::Paragraph,
            QuestionConfig::MultipleChoice(c) => ConfigModel::MultipleChoice {
                options: c.options.deep_view(),
            },
            QuestionConfig::Checkboxes(c) => ConfigModel::Checkboxes {
                options: c.options.deep_view(),
            },
            QuestionConfig::Dropdown(c) => ConfigModel::Dropdown { options: c.options.deep_view() },
            QuestionConfig::LinearScale(c) => ConfigModel::LinearScale {
                start: c.start as nat,
                start_label: c.start_label@,
                end: c.end as nat,
                end_label: c.end_label@,
            },
            QuestionConfig::MultipleChoiceGrid(c) => ConfigModel::MultipleChoiceGrid {
                rows: c.rows.deep_view(),
                columns: c.columns.deep_view(),
            },
            QuestionConfig::CheckboxGrid(c) => ConfigModel::CheckboxGrid {
                rows: c.rows.deep_view(),
                columns: c.columns.deep_view(),
            },
            QuestionConfig::Date(_) => ConfigModel::Date,
            QuestionConfig::Time(_) => ConfigModel::Time,
        }
    }
}

/// Why a structural edit was refused.
#[derive(Clone, Copy, Debug, PartialEq, Eq, Structural)]
pub enum EditError {
    /// The index names no entry of the list.
    IndexOutOfRange,
    /// The configuration's kind has no such part.
    WrongKind,
}

/// The number in `[lo, hi]` nearest to `v`.
pub open spec fn clamped(v: nat, lo: nat, hi: nat) -> nat {
    if v < lo {
        lo
    } else if v > hi {
        hi
    } else {
        v
    }
}

/// The bounds within which the first point of a scale can be set.
pub const SCALE_START_MIN: usize = 0;
pub const SCALE_START_MAX: usize = 1;
/// The bounds within which the last point of a scale can be set.
pub const SCALE_END_MIN: usize = 2;
pub const SCALE_END_MAX: usize = 10;

/// The number in `[lo, hi]` nearest to `v`.
pub fn clamp(v: usize, lo: usize, hi: usize) -> (r: usize)
    requires
        lo <= hi,
    ensures
        r as nat == clamped(v as nat, lo as nat, hi as nat),
{
    if v < lo {
        lo
    } else if v > hi {
        hi
    } else {
        v
    }
}

/// Appends "`label` n", where n is the new length of the list.
fn push_numbered(list: &mut Vec<String>, label: &str)
    requires
        old(list)@.len() < usize::MAX,
    ensures
        final(list).deep_view() == old(list).deep_view().push(
            numbered(label@, old(list)@.len() + 1),
        ),
{
    let n = list.len();
    let entry = numbered_label(label, n + 1);
    list.push(entry);
    assert(list.deep_view() =~= old(list).deep_view().push(numbered(label@, old(list)@.len() + 1)));
}

/// Removes the entry at `index`, or reports that there is none.
fn remove_label(list: &mut Vec<String>, index: usize) -> (r: Result<(), EditError>)
    ensures
        index < old(list)@.len() ==> r is Ok && final(list).deep_view() == old(
            list,
        ).deep_view().remove(index as int),
        index >= old(list)@.len() ==> r == Err::<(), EditError>(EditError::IndexOutOfRange)
            && final(list).deep_view() == old(list).deep_view(),
{
    if index < list.len() {
        list.remove(index);
        assert(list.deep_view() =~= old(list).deep_view().remove(index as int));
        Ok(())
    } else {
        Err(EditError::IndexOutOfRange)
    }
}

/// A copy of a list of labels.
pub fn copy_labels(list: &Vec<String>) -> (r: Vec<String>)
    ensures
        r.deep_view() == list.deep_view(),
{
    let r = list.clone();
    assert(r@ =~= list@);
    assert(r.deep_view() =~= list.deep_view());
    r
}

fn one_label(label: &str) -> (r: Vec<String>)
    ensures
        r.deep_view() == seq![label@],
{
    let r = vec![String::from_str(label)];
    assert(r.deep_view() =~= seq![label@]);
    r
}

impl QuestionConfig {
    pub fn kind(&self) -> (r: QuestionKind)
        ensures
            r == self@.kind(),
    {
        match self {
            QuestionConfig::ShortAnswer(_) => QuestionKind::ShortAnswer,
            QuestionConfig::Paragraph(_) => QuestionKind::Paragraph,
            QuestionConfig::MultipleChoice(_) => QuestionKind::MultipleChoice,
            QuestionConfig::Checkboxes(_) => QuestionKind::Checkboxes,
            QuestionConfig::Dropdown(_) => QuestionKind::Dropdown,
            QuestionConfig::LinearScale(_) => QuestionKind::LinearScale,
            QuestionConfig::MultipleChoiceGrid(_) => QuestionKind::MultipleChoiceGrid,
            QuestionConfig::CheckboxGrid(_) => QuestionKind::CheckboxGrid,
            QuestionConfig::Date(_) => QuestionKind::Date,
            QuestionConfig::Time(_) => QuestionKind::Time,
        }
    }

    /// The label of this configuration's kind.
    pub fn name(&self) -> (r: String)
        ensures
            r@ == kind_label(self@.kind()),
    {
        self.kind().display_name()
    }

    /// Whether two configurations are of one kind, whatever they hold.
    pub fn same_kind(&self, other: &QuestionConfig) -> (r: bool)
        ensures
            r == (self@.kind() == other@.kind()),
    {
        self.kind() == other.kind()
    }

    /// A fresh configuration of the given kind.
    pub fn default_for(k: QuestionKind) -> (r: QuestionConfig)
        ensures
            r@ == default_config(k),
    {
        match k {
            QuestionKind::ShortAnswer => QuestionConfig::ShortAnswer(ShortAnswerConfig),
            QuestionKind::Paragraph => QuestionConfig::Paragraph(ParagraphConfig),
            QuestionKind::MultipleChoice => QuestionConfig::MultipleChoice(
                MultipleChoiceConfig { options: one_label("Option 1") },
            ),
            QuestionKind::Checkboxes => QuestionConfig::Checkboxes(
                CheckboxesConfig { options: one_label("Option 1") },
            ),
            QuestionKind::Dropdown => QuestionConfig::Dropdown(
                DropdownConfig { options: one_label("Option 1") },
            ),
            QuestionKind::LinearScale => QuestionConfig::LinearScale(
                LinearScaleConfig {
                    start: 1,
                    start_label: String::new(),
                    end: 5,
                    end_label: String::new(),
                },
            ),
            QuestionKind::MultipleChoiceGrid => QuestionConfig::MultipleChoiceGrid(
                MultipleChoiceGridConfig { rows: one_label("Row 1"), columns: one_label("Column 1") },
            ),
            QuestionKind::CheckboxGrid => QuestionConfig::CheckboxGrid(
                CheckboxGridConfig { rows: one_label("Row 1"), columns: one_label("Column 1") },
            ),
            QuestionKind::Date => QuestionConfig::Date(DateConfig),
            QuestionKind::Time => QuestionConfig::Time(TimeConfig),
        }
    }

    /// Appends an option labelled "Option n", n being the new count.
    pub fn add_option(&mut self) -> (r: Result<(), EditError>)
        requires
            old(self)@.options().len() < usize::MAX,
        ensures
            old(self)@.has_options() ==> r is Ok && final(self)@ == old(self)@.with_options(
                old(self)@.options().push(numbered("Option"@, old(self)@.options().len() + 1)),
            ),
            !old(self)@.has_options() ==> r == Err::<(), EditError>(EditError::WrongKind)
                && final(self)@ == old(self)@,
    {
        match self {
            QuestionConfig::MultipleChoice(c) => {
                push_numbered(&mut c.options, "Option");
                Ok(())
            },
            QuestionConfig::Checkboxes(c) => {
                push_numbered(&mut c.options, "Option");
                Ok(())
            },
            QuestionConfig::Dropdown(c) => {
                push_numbered(&mut c.options, "Option");
                Ok(())
            },
            _ => Err(EditError::WrongKind),
        }
    }

    /// Removes the option at `index`.
    pub fn remove_option(&mut self, index: usize) -> (r: Result<(), EditError>)
        ensures
            !old(self)@.has_options() ==> r == Err::<(), EditError>(EditError::WrongKind),
            old(self)@.has_options() && index >= old(self)@.options().len() ==> r == Err::<
                (),
                EditError,
            >(EditError::IndexOutOfRange),
            old(self)@.has_options() && index < old(self)@.options().len() ==> r is Ok
                && final(self)@ == old(self)@.with_options(
                old(self)@.options().remove(index as int),
            ),
            r is Err ==> final(self)@ == old(self)@,
    {
        match self {
            QuestionConfig::MultipleChoice(c) => remove_label(&mut c.options, index),
            QuestionConfig::Checkboxes(c) => remove_label(&mut c.options, index),
            QuestionConfig::Dropdown(c) => remove_label(&mut c.options, index),
            _ => Err(EditError::WrongKind),
        }
    }

    /// Appends a row labelled "Row n" to a grid, n being the new count.
    pub fn add_row(&mut self) -> (r: Result<(), EditError>)
        requires
            old(self)@.rows().len() < usize::MAX,
        ensures
            old(self)@.is_grid() ==> r is Ok && final(self)@ == old(self)@.with_rows(
                old(self)@.rows().push(numbered("Row"@, old(self)@.rows().len() + 1)),
            ),
            !old(self)@.is_grid() ==> r == Err::<(), EditError>(EditError::WrongKind)
                && final(self)@ == old(self)@,
    {
        match self {
            QuestionConfig::MultipleChoiceGrid(c) => {
                push_numbered(&mut c.rows, "Row");
                Ok(())
            },
            QuestionConfig::CheckboxGrid(c) => {
                push_numbered(&mut c.rows, "Row");
                Ok(())
            },
            _ => Err(EditError::WrongKind),
        }
    }

    /// Appends a column labelled "Column n" to a grid, n being the new count.
    pub fn add_column(&mut self) -> (r: Result<(), EditError>)
        requires
            old(self)@.columns().len() < usize::MAX,
        ensures
            old(self)@.is_grid() ==> r is Ok && final(self)@ == old(self)@.with_columns(
                old(self)@.columns().push(numbered("Column"@, old(self)@.columns().len() + 1)),
            ),
            !old(self)@.is_grid() ==> r == Err::<(), EditError>(EditError::WrongKind)
                && final(self)@ == old(self)@,
    {
        match self {
            QuestionConfig::MultipleChoiceGrid(c) => {
                push_numbered(&mut c.columns, "Column");
                Ok(())
            },
            QuestionConfig::CheckboxGrid(c) => {
                push_numbered(&mut c.columns, "Column");
                Ok(())
            },
            _ => Err(EditError::WrongKind),
        }
    }

    /// Removes the row at `index` of a grid.
    pub fn remove_row(&mut self, index: usize) -> (r: Result<(), EditError>)
        ensures
            !old(self)@.is_grid() ==> r == Err::<(), EditError>(EditError::WrongKind),
            old(self)@.is_grid() && index >= old(self)@.rows().len() ==> r == Err::<
                (),
                EditError,
            >(EditError::IndexOutOfRange),
            old(self)@.is_grid() && index < old(self)@.rows().len() ==> r is Ok && final(self)@
                == old(self)@.with_rows(old(self)@.rows().remove(index as int)),
            r is Err ==> final(self)@ == old(self)@,
    {
        match self {
            QuestionConfig::MultipleChoiceGrid(c) => remove_label(&mut c.rows, index),
            QuestionConfig::CheckboxGrid(c) => remove_label(&mut c.rows, index),
            _ => Err(EditError::WrongKind),
        }
    }

    /// Removes the column at `index` of a grid.
    pub fn remove_column(&mut self, index: usize) -> (r: Result<(), EditError>)
        ensures
            !old(self)@.is_grid() ==> r == Err::<(), EditError>(EditError::WrongKind),
            old(self)@.is_grid() && index >= old(self)@.columns().len() ==> r == Err::<
                (),
                EditError,
            >(EditError::IndexOutOfRange),
            old(self)@.is_grid() && index < old(self)@.columns().len() ==> r is Ok
                && final(self)@ == old(self)@.with_columns(old(self)@.columns().remove(index as int)),
            r is Err ==> final(self)@ == old(self)@,
    {
        match self {
            QuestionConfig::MultipleChoiceGrid(c) => remove_label(&mut c.columns, index),
            QuestionConfig::CheckboxGrid(c) => remove_label(&mut c.columns, index),
            _ => Err(EditError::WrongKind),
        }
    }

    /// Sets the first point of a scale, held within `[SCALE_START_MIN, SCALE_START_MAX]`.
    /// The answer is not touched.
    pub fn set_scale_start(&mut self, start: usize) -> (r: Result<(), EditError>)
        ensures
            old(self)@ is LinearScale ==> r is Ok && final(self)@ == old(self)@.with_start(
                clamped(start as nat, SCALE_START_MIN as nat, SCALE_START_MAX as nat),
            ),
            !(old(self)@ is LinearScale) ==> r == Err::<(), EditError>(EditError::WrongKind)
                && final(self)@ == old(self)@,
    {
        match self {
            QuestionConfig::LinearScale(c) => {
                c.start = clamp(start, SCALE_START_MIN, SCALE_START_MAX);
                Ok(())
            },
            _ => Err(EditError::WrongKind),
        }
    }

    /// Sets the last point of a scale, held within `[SCALE_END_MIN, SCALE_END_MAX]`.
    /// The answer is not touched.
    pub fn set_scale_end(&mut self, end: usize) -> (r: Result<(), EditError>)
        ensures
            old(self)@ is LinearScale ==> r is Ok && final(self)@ == old(self)@.with_end(
                clamped(end as nat, SCALE_END_MIN as nat, SCALE_END_MAX as nat),
            ),
            !(old(self)@ is LinearScale) ==> r == Err::<(), EditError>(EditError::WrongKind)
                && final(self)@ == old(self)@,
    {
        match self {
            QuestionConfig::LinearScale(c) => {
                c.end = clamp(end, SCALE_END_MIN, SCALE_END_MAX);
                Ok(())
            },
            _ => Err(EditError::WrongKind),
        }
    }

    /// A copy holding the same labels and bounds.
    pub fn duplicate(&self) -> (r: QuestionConfig)
        ensures
            r@ == self@,
    {
        match self {
            QuestionConfig::ShortAnswer(_) => QuestionConfig::ShortAnswer(ShortAnswerConfig),
            QuestionConfig::Paragraph(_) => QuestionConfig::Paragraph(ParagraphConfig),
            QuestionConfig::MultipleChoice(c) => QuestionConfig::MultipleChoice(
                MultipleChoiceConfig { options: copy_labels(&c.options) },
            ),
            QuestionConfig::Checkboxes(c) => QuestionConfig::Checkboxes(
                CheckboxesConfig { options: copy_labels(&c.options) },
            ),
            QuestionConfig::Dropdown(c) => QuestionConfig::Dropdown(
                DropdownConfig { options: copy_labels(&c.options) },
            ),
            QuestionConfig::LinearScale(c) => QuestionConfig::LinearScale(
                LinearScaleConfig {
                    start: c.start,
                    start_label: c.start_label.clone(),
                    end: c.end,
                    end_label: c.end_label.clone(),
                },
            ),
            QuestionConfig::MultipleChoiceGrid(c) => QuestionConfig::MultipleChoiceGrid(
                MultipleChoiceGridConfig {
                    rows: copy_labels(&c.rows),
                    columns: copy_labels(&c.columns),
                },
            ),
            QuestionConfig::CheckboxGrid(c) => QuestionConfig::CheckboxGrid(
                CheckboxGridConfig { rows: copy_labels(&c.rows), columns: copy_labels(&c.columns) },
            ),
            QuestionConfig::Date(_) => QuestionConfig::Date(DateConfig),
            QuestionConfig::Time(_) => QuestionConfig::Time(TimeConfig),
        }
    }

    /// The default configuration of every kind, in catalog order.
    pub fn types_list() -> (r: Vec<QuestionConfig>)
        ensures
            r@.len() == catalog().len(),
            forall|i: int| 0 <= i < r@.len() ==> #[trigger] r@[i]@ == default_config(catalog()[i]),
    {
        let kinds = QuestionKind::all_kinds();
        let mut r: Vec<QuestionConfig> = Vec::new();
        let mut i: usize = 0;
        while i < kinds.len()
            invariant
                kinds@ == catalog(),
                i <= kinds@.len(),
                r@.len() == i,
                forall|j: int| 0 <= j < i ==> #[trigger] r@[j]@ == default_config(catalog()[j]),
            decreases kinds@.len() - i,
        {
            r.push(QuestionConfig::default_for(kinds[i]));
            i = i + 1;
        }
        r
    }
}

} // verus!
