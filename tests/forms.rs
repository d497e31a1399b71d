use eform::editor::{EditTab, EformApp};
use eform::form::Form;
use eform::gform_models::{forms, watches};
use eform::question::config::EditError;
use eform::question::kind::QuestionKind;
use eform::question::value::QuestionValue;

#[test]
fn new_form_is_empty() {
    let f = Form::new();
    assert_eq!(f.name, "Untitled form");
    assert!(f.questions.is_empty());
}

#[test]
fn add_and_remove_questions() {
    let mut f = Form::new();
    f.add_question();
    f.add_question();
    assert_eq!(f.questions.len(), 2);
    assert_eq!(f.questions[1].name, "Question");
    assert_eq!(f.questions[1].kind(), QuestionKind::ShortAnswer);
    f.questions[0].switch_kind(QuestionKind::Date);
    assert_eq!(f.remove_question(2), Err(EditError::IndexOutOfRange));
    assert_eq!(f.questions.len(), 2);
    assert_eq!(f.remove_question(1), Ok(()));
    assert_eq!(f.questions.len(), 1);
    assert_eq!(f.questions[0].kind(), QuestionKind::Date);
}

#[test]
fn reset_all_clears_every_answer() {
    let mut f = Form::new();
    f.add_question();
    f.add_question();
    f.questions[0].set_text("typed".to_string()).unwrap();
    f.questions[1].switch_kind(QuestionKind::LinearScale);
    f.questions[1].select_point(3).unwrap();
    f.reset_all_preview_values();
    match &f.questions[0].value {
        QuestionValue::ShortAnswer(v) => assert_eq!(v.text, ""),
        other => panic!("{:?}", other),
    }
    match &f.questions[1].value {
        QuestionValue::LinearScale(v) => assert_eq!(v.value, 1),
        other => panic!("{:?}", other),
    }
}

#[test]
fn duplicate_appends_copy_to_title() {
    let mut f = Form::new();
    f.add_question();
    let d = f.duplicate();
    assert_eq!(d.name, "Untitled form Copy");
    assert_eq!(d.questions.len(), 1);
    f.name = String::new();
    assert_eq!(f.duplicate().name, "");
}

#[test]
fn editor_open_and_close() {
    let mut app = EformApp::new();
    assert!(app.forms.is_empty());
    assert_eq!(app.form_index, None);
    app.new_blank_form();
    app.new_blank_form();
    assert_eq!(app.forms.len(), 2);
    assert_eq!(app.form_index, Some(1));
    assert_eq!(app.select_tab(EditTab::Settings), Ok(()));
    app.close_form();
    assert_eq!(app.form_index, None);
    assert_eq!(app.edit_tab, EditTab::Questions);
    assert_eq!(app.select_tab(EditTab::Preview), Err(EditError::IndexOutOfRange));
    assert_eq!(app.open_form(0), Ok(()));
    assert_eq!(app.form_index, Some(0));
    assert_eq!(app.open_form(2), Err(EditError::IndexOutOfRange));
    assert_eq!(app.form_index, Some(0));
    assert_eq!(app.delete_form(0), Ok(()));
    assert_eq!(app.forms.len(), 1);
    assert_eq!(app.form_index, None);
    assert_eq!(app.delete_form(3), Err(EditError::IndexOutOfRange));
}

#[test]
fn preview_tab_starts_blank() {
    let mut app = EformApp::new();
    app.new_blank_form();
    app.forms[0].add_question();
    app.forms[0].questions[0].set_text("draft".to_string()).unwrap();
    assert_eq!(app.select_tab(EditTab::Preview), Ok(()));
    assert_eq!(app.edit_tab, EditTab::Preview);
    match &app.forms[0].questions[0].value {
        QuestionValue::ShortAnswer(v) => assert_eq!(v.text, ""),
        other => panic!("{:?}", other),
    }
    app.forms[0].questions[0].set_text("again".to_string()).unwrap();
    assert_eq!(app.reset_form_preview(0), Ok(()));
    match &app.forms[0].questions[0].value {
        QuestionValue::ShortAnswer(v) => assert_eq!(v.text, ""),
        other => panic!("{:?}", other),
    }
    assert_eq!(app.reset_form_preview(1), Err(EditError::IndexOutOfRange));
}

#[test]
fn remote_calls_fail_without_a_service() {
    assert!(forms::get("f".to_string()).is_err());
    assert!(watches::delete("f".to_string(), "w".to_string()).is_err());
    assert!(watches::list("f".to_string()).is_err());
    assert!(watches::renew("f".to_string(), "w".to_string()).is_err());
}
