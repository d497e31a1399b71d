//! Responses: what respondents submitted.
use vstd::prelude::*;

verus! {

/// The answer to one question.
#[derive(Clone)]
pub enum Value {
    TextAnswers(TextAnswers),
    FileUploadAnswers(FileUploadAnswers),
}

/// Answers given as text.
#[derive(Clone)]
pub struct TextAnswers {
    answers: Vec<TextAnswer>,
}

impl TextAnswers {
    pub closed spec fn spec_answers(&self) -> Seq<TextAnswer> {
        self.answers@
    }

    /// A copy of the answers.
    pub fn answers(&self) -> (r: Vec<TextAnswer>)
        ensures
            r@.len() == self.spec_answers().len(),
            forall|i: int|
                0 <= i < r@.len() ==> (#[trigger] r@[i]).spec_value() == self.spec_answers()[i].spec_value(),
    {
        let mut r: Vec<TextAnswer> = Vec::new();
        let mut i: usize = 0;
        while i < self.answers.len()
            invariant
                i <= self.answers@.len(),
                r@.len() == i,
                forall|j: int|
                    0 <= j < i ==> (#[trigger] r@[j]).spec_value() == self.answers@[j].spec_value(),
            decreases self.answers@.len() - i,
        {
            r.push(TextAnswer { value: self.answers[i].value() });
            i = i + 1;
        }
        r
    }
}

/// One answer given as text.
#[derive(Clone)]
pub struct TextAnswer {
    value: String,
}

impl TextAnswer {
    pub closed spec fn spec_value(&self) -> Seq<char> {
        self.value@
    }

    pub fn value(&self) -> (r: String)
        ensures
            r@ == self.spec_value(),
    {
        self.value.clone()
    }
}

/// Answers given as uploaded files.
#[derive(Clone)]
pub struct FileUploadAnswers {
    answers: Vec<FileUploadAnswer>,
}

impl FileUploadAnswers {
    pub closed spec fn spec_answers(&self) -> Seq<FileUploadAnswer> {
        self.answers@
    }

    /// A copy of the answers.
    pub fn answers(&self) -> (r: Vec<FileUploadAnswer>)
        ensures
            r@.len() == self.spec_answers().len(),
            forall|i: int| 0 <= i < r@.len() ==> (#[trigger] r@[i]).same(self.spec_answers()[i]),
    {
        let mut r: Vec<FileUploadAnswer> = Vec::new();
        let mut i: usize = 0;
        while i < self.answers.len()
            invariant
                i <= self.answers@.len(),
                r@.len() == i,
                forall|j: int| 0 <= j < i ==> (#[trigger] r@[j]).same(self.answers@[j]),
            decreases self.answers@.len() - i,
        {
            let a = &self.answers[i];
            r.push(
                FileUploadAnswer { file_id: a.file_id(), file_name: a.file_name(), mime_type: a.mime_type() },
            );
            i = i + 1;
        }
        r
    }
}

/// One uploaded file.
#[derive(Clone)]
pub struct FileUploadAnswer {
    file_id: String,
    file_name: String,
    mime_type: String,
}

impl FileUploadAnswer {
    pub closed spec fn spec_file_id(&self) -> Seq<char> {
        self.file_id@
    }

    pub closed spec fn spec_file_name(&self) -> Seq<char> {
        self.file_name@
    }

    pub closed spec fn spec_mime_type(&self) -> Seq<char> {
        self.mime_type@
    }

    /// Both describe the same file.
    pub open spec fn same(&self, other: FileUploadAnswer) -> bool {
        &&& self.spec_file_id() == other.spec_file_id()
        &&& self.spec_file_name() == other.spec_file_name()
        &&& self.spec_mime_type() == other.spec_mime_type()
    }

    pub fn file_id(&self) -> (r: String)
        ensures
            r@ == self.spec_file_id(),
    {
        self.file_id.clone()
    }

    pub fn file_name(&self) -> (r: String)
        ensures
            r@ == self.spec_file_name(),
    {
        self.file_name.clone()
    }

    pub fn mime_type(&self) -> (r: String)
        ensures
            r@ == self.spec_mime_type(),
    {
        self.mime_type.clone()
    }
}

/// Parameters of a listing of responses.
pub struct Query {
    pub filter: String,
    pub page_size: i32,
    pub page_token: String,
}

} // verus!
