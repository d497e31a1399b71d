//! The state of the form editor: the list of forms, which one is open, and
//! which tab of it is shown.
use vstd::prelude::*;

use crate::form::{Form, FormModel, cleared};
use crate::question::config::EditError;
use crate::question::QuestionModel;

verus! {

#[derive(Clone, Copy, Debug, PartialEq, Eq, Structural)]
pub enum EditTab {
    Questions,
    Preview,
    Responses,
    Settings,
}

/// Every form, the open one (none while the list of forms is shown) and
/// the tab shown of it.
pub struct EformApp {
    pub forms: Vec<Form>,
    pub form_index: Option<usize>,
    pub edit_tab: EditTab,
}

pub struct EditorModel {
    pub forms: Seq<FormModel>,
    pub form_index: Option<usize>,
    pub edit_tab: EditTab,
}

impl EditorModel {
    /// Every form is well formed and the open form exists.
    pub open spec fn wf(self) -> bool {
        &&& forall|i: int| 0 <= i < self.forms.len() ==> (#[trigger] self.forms[i]).wf()
        &&& match self.form_index {
            Some(i) => i < self.forms.len(),
            None => true,
        }
    }
}

/// `f` with every answer cleared.
pub open spec fn cleared_form(f: FormModel) -> FormModel {
    FormModel { name: f.name, questions: f.questions.map_values(|q: QuestionModel| cleared(q)) }
}

impl View for EformApp {
    type V = EditorModel;

    open spec fn view(&self) -> EditorModel {
        EditorModel {
            forms: self.forms@.map_values(|f: Form| f@),
            form_index: self.form_index,
            edit_tab: self.edit_tab,
        }
    }
}

impl EformApp {
    /// No forms, the list of forms shown.
    pub fn new() -> (r: EformApp)
        ensures
            r@.forms == Seq::<FormModel>::empty(),
            r@.form_index == None::<usize>,
            r@.edit_tab == EditTab::Questions,
            r@.wf(),
    {
        let r = EformApp { forms: Vec::new(), form_index: None, edit_tab: EditTab::Questions };
        assert(r@.forms =~= Seq::<FormModel>::empty());
        r
    }

    /// Appends a blank form and opens it.
    pub fn new_blank_form(&mut self)
        ensures
            old(self)@.wf() ==> final(self)@.wf(),
            final(self)@.forms.len() == old(self)@.forms.len() + 1,
            final(self)@.forms.drop_last() == old(self)@.forms,
            final(self)@.forms.last().name == "Untitled form"@,
            final(self)@.forms.last().questions == Seq::<QuestionModel>::empty(),
            final(self)@.form_index == Some(old(self)@.forms.len() as usize),
            final(self)@.edit_tab == old(self)@.edit_tab,
    {
        self.forms.push(Form::new());
        self.form_index = Some(self.forms.len() - 1);
        assert(self@.forms.drop_last() =~= old(self)@.forms);
        assert forall|i: int| 0 <= i < old(self)@.forms.len() implies self@.forms[i] == old(
            self,
        )@.forms[i] by {
            assert(self@.forms.drop_last()[i] == self@.forms[i]);
        }
    }

    /// Opens the form at `index`.
    pub fn open_form(&mut self, index: usize) -> (r: Result<(), EditError>)
        ensures
            old(self)@.wf() ==> final(self)@.wf(),
            final(self)@.forms == old(self)@.forms,
            final(self)@.edit_tab == old(self)@.edit_tab,
            index < old(self)@.forms.len() ==> r is Ok && final(self)@.form_index == Some(index),
            index >= old(self)@.forms.len() ==> r == Err::<(), EditError>(
                EditError::IndexOutOfRange,
            ) && final(self)@.form_index == old(self)@.form_index,
    {
        if index < self.forms.len() {
            self.form_index = Some(index);
            Ok(())
        } else {
            Err(EditError::IndexOutOfRange)
        }
    }

    /// Removes the form at `index` from the list of forms. Only the list view
    /// offers this, so no form is open afterwards.
    pub fn delete_form(&mut self, index: usize) -> (r: Result<(), EditError>)
        ensures
            old(self)@.wf() ==> final(self)@.wf(),
            final(self)@.edit_tab == old(self)@.edit_tab,
            index < old(self)@.forms.len() ==> r is Ok && final(self)@.forms == old(
                self,
            )@.forms.remove(index as int) && final(self)@.form_index == None::<usize>,
            index >= old(self)@.forms.len() ==> r == Err::<(), EditError>(
                EditError::IndexOutOfRange,
            ) && final(self)@ == old(self)@,
    {
        if index < self.forms.len() {
            self.forms.remove(index);
            self.form_index = None;
            assert(self@.forms =~= old(self)@.forms.remove(index as int));
            Ok(())
        } else {
            Err(EditError::IndexOutOfRange)
        }
    }

    /// Goes back to the list of forms; the next form opened shows its questions.
    pub fn close_form(&mut self)
        ensures
            old(self)@.wf() ==> final(self)@.wf(),
            final(self)@.forms == old(self)@.forms,
            final(self)@.form_index == None::<usize>,
            final(self)@.edit_tab == EditTab::Questions,
    {
        self.form_index = None;
        self.edit_tab = EditTab::Questions;
    }

    /// Clears every answer of the form at `form_index`.
    pub fn reset_form_preview(&mut self, form_index: usize) -> (r: Result<(), EditError>)
        requires
            old(self)@.wf(),
        ensures
            old(self)@.wf() ==> final(self)@.wf(),
            final(self)@.form_index == old(self)@.form_index,
            final(self)@.edit_tab == old(self)@.edit_tab,
            form_index < old(self)@.forms.len() ==> r is Ok && final(self)@.forms == old(
                self,
            )@.forms.update(form_index as int, cleared_form(old(self)@.forms[form_index as int])),
            form_index >= old(self)@.forms.len() ==> r == Err::<(), EditError>(
                EditError::IndexOutOfRange,
            ) && final(self)@ == old(self)@,
    {
        if form_index < self.forms.len() {
            let mut form = self.forms[form_index].clone_form();
            assert(old(self)@.forms[form_index as int].wf());
            form.reset_all_preview_values();
            self.forms.set(form_index, form);
            assert(self@.forms =~= old(self)@.forms.update(
                form_index as int,
                cleared_form(old(self)@.forms[form_index as int]),
            ));
            Ok(())
        } else {
            Err(EditError::IndexOutOfRange)
        }
    }

    /// Shows `tab` of the open form; showing the preview starts it blank.
    pub fn select_tab(&mut self, tab: EditTab) -> (r: Result<(), EditError>)
        requires
            old(self)@.wf(),
        ensures
            old(self)@.wf() ==> final(self)@.wf(),
            old(self)@.form_index is None ==> r == Err::<(), EditError>(
                EditError::IndexOutOfRange,
            ) && final(self)@ == old(self)@,
            old(self)@.form_index is Some ==> r is Ok && final(self)@.edit_tab == tab
                && final(self)@.form_index == old(self)@.form_index && final(self)@.forms == if tab
                == EditTab::Preview {
                old(self)@.forms.update(
                    old(self)@.form_index->0 as int,
                    cleared_form(old(self)@.forms[old(self)@.form_index->0 as int]),
                )
            } else {
                old(self)@.forms
            },
    {
        match self.form_index {
            Some(i) => {
                if tab == EditTab::Preview {
                    let _ = self.reset_form_preview(i);
                }
                self.edit_tab = tab;
                Ok(())
            },
            None => Err(EditError::IndexOutOfRange),
        }
    }
}

} // verus!
