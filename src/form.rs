//! A form: a title and an ordered list of questions.
use vstd::prelude::*;

use crate::question::config::EditError;
use crate::question::kind::QuestionKind;
use crate::question::value::blank_value;
use crate::question::{Question, QuestionModel, fresh_question};

verus! {

#[derive(Clone, Debug)]
pub struct Form {
    pub name: String,
    pub questions: Vec<Question>,
}

pub struct FormModel {
    pub name: Seq<char>,
    pub questions: Seq<QuestionModel>,
}

impl FormModel {
    /// Every question pairs a configuration and a value of one kind.
    pub open spec fn wf(self) -> bool {
        forall|i: int| 0 <= i < self.questions.len() ==> (#[trigger] self.questions[i]).wf()
    }
}

/// `q` with its answer cleared.
pub open spec fn cleared(q: QuestionModel) -> QuestionModel {
    q.with_value(blank_value(q.config))
}

/// The title of a copy: " Copy" is appended to a title that is not empty.
pub open spec fn copy_title(t: Seq<char>) -> Seq<char> {
    if t.len() > 0 {
        t + " Copy"@
    } else {
        t
    }
}

impl View for Form {
    type V = FormModel;

    open spec fn view(&self) -> FormModel {
        FormModel { name: self.name@, questions: self.questions@.map_values(|q: Question| q@) }
    }
}

impl Form {
    /// An empty form titled "Untitled form".
    pub fn new() -> (r: Form)
        ensures
            r@.name == "Untitled form"@,
            r@.questions == Seq::<QuestionModel>::empty(),
            r@.wf(),
    {
        let r = Form { name: String::from_str("Untitled form"), questions: Vec::new() };
        assert(r@.questions =~= Seq::<QuestionModel>::empty());
        r
    }

    /// Appends a short-answer question named "Question".
    pub fn add_question(&mut self)
        ensures
            final(self)@.name == old(self)@.name,
            final(self)@.questions == old(self)@.questions.push(
                fresh_question("Question"@, QuestionKind::ShortAnswer),
            ),
            old(self)@.wf() ==> final(self)@.wf(),
    {
        self.questions.push(Question::new());
        assert(self@.questions =~= old(self)@.questions.push(
            fresh_question("Question"@, QuestionKind::ShortAnswer),
        ));
    }

    /// Removes the question at `index`, or reports that there is none.
    pub fn remove_question(&mut self, index: usize) -> (r: Result<(), EditError>)
        ensures
            final(self)@.name == old(self)@.name,
            index < old(self)@.questions.len() ==> r is Ok && final(self)@.questions == old(
                self,
            )@.questions.remove(index as int),
            index >= old(self)@.questions.len() ==> r == Err::<(), EditError>(
                EditError::IndexOutOfRange,
            ) && final(self)@.questions == old(self)@.questions,
            old(self)@.wf() ==> final(self)@.wf(),
    {
        if index < self.questions.len() {
            self.questions.remove(index);
            assert(self@.questions =~= old(self)@.questions.remove(index as int));
            Ok(())
        } else {
            Err(EditError::IndexOutOfRange)
        }
    }

    /// Clears the answer of every question; names, kinds, configurations
    /// and order stay.
    pub fn reset_all_preview_values(&mut self)
        requires
            old(self)@.wf(),
        ensures
            final(self)@.name == old(self)@.name,
            final(self)@.questions == old(self)@.questions.map_values(
                |q: QuestionModel| cleared(q),
            ),
            final(self)@.wf(),
    {
        let n = self.questions.len();
        let mut i: usize = 0;
        while i < n
            invariant
                old(self)@.wf(),
                n == old(self)@.questions.len(),
                i <= n,
                self@.name == old(self)@.name,
                self.questions@.len() == n,
                forall|j: int| 0 <= j < i ==> (#[trigger] self.questions@[j])@ == cleared(
                    old(self)@.questions[j],
                ),
                forall|j: int| i <= j < n ==> (#[trigger] self.questions@[j])@ == old(
                    self,
                )@.questions[j],
            decreases n - i,
        {
            let mut q = self.questions[i].duplicate();
            assert(old(self)@.questions[i as int].wf());
            q.reset_value();
            self.questions.set(i, q);
            i = i + 1;
        }
        assert(self@.questions =~= old(self)@.questions.map_values(|q: QuestionModel| cleared(q)));
    }

    /// A copy with the same title and questions.
    pub fn clone_form(&self) -> (r: Form)
        ensures
            r@ == self@,
    {
        let mut questions: Vec<Question> = Vec::new();
        let mut i: usize = 0;
        while i < self.questions.len()
            invariant
                i <= self.questions@.len(),
                questions@.len() == i,
                forall|j: int| 0 <= j < i ==> (#[trigger] questions@[j])@ == self.questions@[j]@,
            decreases self.questions@.len() - i,
        {
            questions.push(self.questions[i].duplicate());
            i = i + 1;
        }
        let r = Form { name: self.name.clone(), questions };
        assert(r@.questions =~= self@.questions);
        r
    }

    /// A copy of the whole form; a title that is not empty gets " Copy" appended.
    pub fn duplicate(&self) -> (r: Form)
        ensures
            r@.name == copy_title(self@.name),
            r@.questions == self@.questions,
    {
        let mut r = self.clone_form();
        if r.name.as_str().unicode_len() > 0 {
            r.name.append(" Copy");
        }
        r
    }
}

} // verus!
