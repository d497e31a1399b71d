use eform::form::Form;
use eform::question::config::{EditError, QuestionConfig};
use eform::question::config_types::{CheckboxGridConfig, CheckboxesConfig, LinearScaleConfig, MultipleChoiceConfig};
use eform::question::kind::QuestionKind;
use eform::question::numbering::{decimal_string, numbered_label};
use eform::question::value::QuestionValue;
use eform::question::value_types::{CheckboxGridValue, CheckboxesValue, DayPeriod, LinearScaleValue, MultipleChoiceValue};
use eform::question::Question;

fn labels(items: &[&str]) -> Vec<String> {
    items.iter().map(|s| s.to_string()).collect()
}

fn choice_of(q: &Question) -> String {
    match &q.value {
        QuestionValue::MultipleChoice(v) => v.choice.clone(),
        QuestionValue::Dropdown(v) => v.choice.clone(),
        other => panic!("not a single-choice answer: {:?}", other),
    }
}

fn checkbox_flags(q: &Question) -> Vec<bool> {
    match &q.value {
        QuestionValue::Checkboxes(v) => v.choices.clone(),
        other => panic!("not a checkboxes answer: {:?}", other),
    }
}

fn grid_flags(q: &Question) -> Vec<Vec<bool>> {
    match &q.value {
        QuestionValue::CheckboxGrid(v) => v.choices.clone(),
        other => panic!("not a checkbox grid answer: {:?}", other),
    }
}

fn scale_value(q: &Question) -> usize {
    match &q.value {
        QuestionValue::LinearScale(v) => v.value,
        other => panic!("not a scale answer: {:?}", other),
    }
}

fn options_of(c: &QuestionConfig) -> Vec<String> {
    match c {
        QuestionConfig::MultipleChoice(c) => c.options.clone(),
        QuestionConfig::Checkboxes(c) => c.options.clone(),
        QuestionConfig::Dropdown(c) => c.options.clone(),
        other => panic!("no options: {:?}", other),
    }
}

/// Renders a value as text, so that two values can be compared.
fn render(v: &QuestionValue) -> String {
    format!("{:?}", v)
}

#[test]
fn multiple_choice_form_scenario() {
    let mut form = Form::new();
    assert_eq!(form.name, "Untitled form");
    form.questions.push(Question {
        name: "Question".to_string(),
        config: QuestionConfig::MultipleChoice(MultipleChoiceConfig { options: labels(&["Option 1", "Option 2"]) }),
        value: QuestionValue::MultipleChoice(MultipleChoiceValue { choice: String::new() }),
    });
    let q = &mut form.questions[0];
    assert_eq!(q.config.add_option(), Ok(()));
    assert_eq!(options_of(&q.config), labels(&["Option 1", "Option 2", "Option 3"]));
    q.reset_value();
    assert_eq!(choice_of(q), "");
    assert_eq!(q.select_option(1), Ok(()));
    assert_eq!(choice_of(q), "Option 2");
    q.reset_value();
    assert_eq!(choice_of(q), "");
}

#[test]
fn checkbox_grid_scenario() {
    let mut q = Question {
        name: "Grid".to_string(),
        config: QuestionConfig::CheckboxGrid(CheckboxGridConfig { rows: labels(&["R1"]), columns: labels(&["C1", "C2"]) }),
        value: QuestionValue::CheckboxGrid(CheckboxGridValue { choices: vec![] }),
    };
    q.reset_value();
    assert_eq!(grid_flags(&q), vec![vec![false, false]]);
    assert_eq!(q.config.remove_column(1), Ok(()));
    q.reset_value();
    assert_eq!(grid_flags(&q), vec![vec![false]]);
}

#[test]
fn defaults_are_paired_and_already_blank() {
    let pairs = Question::types_list();
    assert_eq!(pairs.len(), 10);
    for (kind, (config, value)) in QuestionKind::all_kinds().into_iter().zip(pairs.into_iter()) {
        assert_eq!(config.kind(), kind);
        assert_eq!(value.kind(), kind);
        let mut q = Question { name: "Q".to_string(), config, value };
        let before = render(&q.value);
        q.reset_value();
        assert_eq!(render(&q.value), before);
    }
}

#[test]
fn default_contents() {
    assert_eq!(options_of(&QuestionConfig::default_for(QuestionKind::MultipleChoice)), labels(&["Option 1"]));
    match QuestionConfig::default_for(QuestionKind::LinearScale) {
        QuestionConfig::LinearScale(c) => {
            assert_eq!((c.start, c.end), (1, 5));
        }
        other => panic!("{:?}", other),
    }
    match QuestionValue::default_for(QuestionKind::Time) {
        QuestionValue::Time(t) => assert_eq!((t.hour, t.minute, t.period), (1, 0, DayPeriod::AM)),
        other => panic!("{:?}", other),
    }
    match QuestionValue::default_for(QuestionKind::Date) {
        QuestionValue::Date(d) => assert_eq!((d.year, d.month, d.day), (0, 1, 1)),
        other => panic!("{:?}", other),
    }
    assert_eq!(QuestionConfig::types_list().len(), 10);
    assert_eq!(QuestionValue::types_list().len(), 10);
}

#[test]
fn switch_kind_pairs_config_and_value() {
    let mut q = Question::new();
    assert_eq!(q.name, "Question");
    assert_eq!(q.kind(), QuestionKind::ShortAnswer);
    for kind in QuestionKind::all_kinds() {
        q.switch_kind(kind);
        assert_eq!(q.config.kind(), kind);
        assert_eq!(q.value.kind(), kind);
        assert_eq!(q.name, "Question");
    }
}

#[test]
fn display_names() {
    let names: Vec<String> = QuestionKind::all_kinds().iter().map(|k| k.display_name()).collect();
    assert_eq!(
        names,
        labels(&[
            "Short answer",
            "Paragraph",
            "Multiple choice",
            "Checkboxes",
            "Dropdown",
            "Linear scale",
            "Multiple choice grid",
            "Checkbox grid",
            "Date",
            "Time",
        ])
    );
    assert_eq!(QuestionConfig::default_for(QuestionKind::CheckboxGrid).name(), "Checkbox grid");
}

#[test]
fn same_kind_ignores_contents() {
    let a = QuestionConfig::MultipleChoice(MultipleChoiceConfig { options: labels(&["x"]) });
    let b = QuestionConfig::default_for(QuestionKind::MultipleChoice);
    let c = QuestionConfig::default_for(QuestionKind::Dropdown);
    assert!(a.same_kind(&b));
    assert!(!a.same_kind(&c));
    let v = QuestionValue::default_for(QuestionKind::Date);
    assert!(v.same_kind(&QuestionValue::default_for(QuestionKind::Date)));
    assert!(!v.same_kind(&QuestionValue::default_for(QuestionKind::Time)));
}

#[test]
fn checkbox_edits_then_reset_resize() {
    let mut q = Question {
        name: "Boxes".to_string(),
        config: QuestionConfig::Checkboxes(CheckboxesConfig { options: labels(&["a", "b"]) }),
        value: QuestionValue::Checkboxes(CheckboxesValue { choices: vec![true, true, true, true, true] }),
    };
    q.reset_value();
    assert_eq!(checkbox_flags(&q), vec![false, false]);
    assert_eq!(q.toggle_option(1), Ok(()));
    assert_eq!(checkbox_flags(&q), vec![false, true]);
    assert_eq!(q.config.add_option(), Ok(()));
    assert_eq!(options_of(&q.config), labels(&["a", "b", "Option 3"]));
    q.reset_value();
    assert_eq!(checkbox_flags(&q), vec![false, false, false]);
    assert_eq!(q.config.remove_option(0), Ok(()));
    assert_eq!(q.config.remove_option(0), Ok(()));
    q.reset_value();
    assert_eq!(checkbox_flags(&q), vec![false]);
    assert_eq!(q.toggle_option(1), Err(EditError::IndexOutOfRange));
}

#[test]
fn option_edit_errors() {
    let mut c = QuestionConfig::default_for(QuestionKind::Dropdown);
    assert_eq!(c.remove_option(1), Err(EditError::IndexOutOfRange));
    assert_eq!(options_of(&c), labels(&["Option 1"]));
    let mut d = QuestionConfig::default_for(QuestionKind::Date);
    assert_eq!(d.add_option(), Err(EditError::WrongKind));
    assert_eq!(d.remove_option(0), Err(EditError::WrongKind));
    assert_eq!(d.add_row(), Err(EditError::WrongKind));
    assert_eq!(d.set_scale_start(1), Err(EditError::WrongKind));
}

#[test]
fn grid_rows_and_columns() {
    let mut c = QuestionConfig::default_for(QuestionKind::MultipleChoiceGrid);
    assert_eq!(c.add_row(), Ok(()));
    assert_eq!(c.add_column(), Ok(()));
    assert_eq!(c.add_column(), Ok(()));
    match &c {
        QuestionConfig::MultipleChoiceGrid(g) => {
            assert_eq!(g.rows, labels(&["Row 1", "Row 2"]));
            assert_eq!(g.columns, labels(&["Column 1", "Column 2", "Column 3"]));
        }
        other => panic!("{:?}", other),
    }
    assert_eq!(c.remove_row(0), Ok(()));
    assert_eq!(c.remove_row(5), Err(EditError::IndexOutOfRange));
    let mut q = Question { name: "G".to_string(), config: c, value: QuestionValue::default_for(QuestionKind::MultipleChoiceGrid) };
    q.reset_value();
    assert_eq!(q.select_cell(0, 2), Ok(()));
    match &q.value {
        QuestionValue::MultipleChoiceGrid(v) => assert_eq!(v.choices, labels(&["Column 3"])),
        other => panic!("{:?}", other),
    }
    assert_eq!(q.select_cell(1, 0), Err(EditError::IndexOutOfRange));
}

#[test]
fn toggle_grid_cell() {
    let mut q = Question::new();
    q.switch_kind(QuestionKind::CheckboxGrid);
    assert_eq!(q.config.add_column(), Ok(()));
    q.reset_value();
    assert_eq!(q.toggle_cell(0, 1), Ok(()));
    assert_eq!(grid_flags(&q), vec![vec![false, true]]);
    assert_eq!(q.toggle_cell(0, 1), Ok(()));
    assert_eq!(grid_flags(&q), vec![vec![false, false]]);
    assert_eq!(q.toggle_cell(0, 2), Err(EditError::IndexOutOfRange));
    assert_eq!(q.select_option(0), Err(EditError::WrongKind));
}

#[test]
fn scale_reset_follows_start() {
    let mut q = Question {
        name: "Scale".to_string(),
        config: QuestionConfig::LinearScale(LinearScaleConfig { start: 1, start_label: String::new(), end: 5, end_label: String::new() }),
        value: QuestionValue::LinearScale(LinearScaleValue { value: 4 }),
    };
    q.reset_value();
    assert_eq!(scale_value(&q), 1);
    assert_eq!(q.select_point(4), Ok(()));
    assert_eq!(scale_value(&q), 4);
    assert_eq!(q.select_point(6), Err(EditError::IndexOutOfRange));
    assert_eq!(scale_value(&q), 4);
    assert_eq!(q.config.set_scale_start(0), Ok(()));
    q.reset_value();
    assert_eq!(scale_value(&q), 0);
}

#[test]
fn scale_bounds_are_clamped() {
    let mut c = QuestionConfig::default_for(QuestionKind::LinearScale);
    assert_eq!(c.set_scale_start(7), Ok(()));
    assert_eq!(c.set_scale_end(20), Ok(()));
    match &c {
        QuestionConfig::LinearScale(s) => assert_eq!((s.start, s.end), (1, 10)),
        other => panic!("{:?}", other),
    }
    assert_eq!(c.set_scale_end(0), Ok(()));
    match &c {
        QuestionConfig::LinearScale(s) => assert_eq!(s.end, 2),
        other => panic!("{:?}", other),
    }
}

#[test]
fn date_and_time_answers_are_clamped() {
    let mut d = Question::new();
    d.switch_kind(QuestionKind::Date);
    assert_eq!(d.set_date(12345, 13, 0), Ok(()));
    match &d.value {
        QuestionValue::Date(v) => assert_eq!((v.year, v.month, v.day), (9999, 12, 1)),
        other => panic!("{:?}", other),
    }
    assert_eq!(d.set_date(2024, 2, 30), Ok(()));
    match &d.value {
        QuestionValue::Date(v) => assert_eq!((v.year, v.month, v.day), (2024, 2, 30)),
        other => panic!("{:?}", other),
    }
    let mut t = Question::new();
    t.switch_kind(QuestionKind::Time);
    assert_eq!(t.set_time(0, 75, DayPeriod::PM), Ok(()));
    match &t.value {
        QuestionValue::Time(v) => assert_eq!((v.hour, v.minute, v.period), (1, 59, DayPeriod::PM)),
        other => panic!("{:?}", other),
    }
    assert_eq!(t.set_date(1, 1, 1), Err(EditError::WrongKind));
}

#[test]
fn text_answers() {
    let mut q = Question::new();
    assert_eq!(q.set_text("hello".to_string()), Ok(()));
    match &q.value {
        QuestionValue::ShortAnswer(v) => assert_eq!(v.text, "hello"),
        other => panic!("{:?}", other),
    }
    q.reset_value();
    match &q.value {
        QuestionValue::ShortAnswer(v) => assert_eq!(v.text, ""),
        other => panic!("{:?}", other),
    }
    q.switch_kind(QuestionKind::Checkboxes);
    assert_eq!(q.set_text("x".to_string()), Err(EditError::WrongKind));
}

#[test]
fn numbered_labels() {
    assert_eq!(decimal_string(0), "0");
    assert_eq!(decimal_string(7), "7");
    assert_eq!(decimal_string(305), "305");
    assert_eq!(decimal_string(usize::MAX), usize::MAX.to_string());
    assert_eq!(numbered_label("Option", 12), "Option 12");
    assert_eq!(numbered_label("Row", 1), "Row 1");
}

#[test]
fn duplicate_question_keeps_everything() {
    let mut q = Question::new();
    q.switch_kind(QuestionKind::Checkboxes);
    q.toggle_option(0).unwrap();
    let d = q.duplicate();
    assert_eq!(d.name, q.name);
    assert_eq!(options_of(&d.config), options_of(&q.config));
    assert_eq!(checkbox_flags(&d), vec![true]);
}
