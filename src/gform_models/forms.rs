//! Forms as the remote service describes them.
use vstd::prelude::*;

use super::Feedback;

verus! {

/// A form document of the service.
pub struct Form {
    form_id: String,
    /// The title and description of the form.
    pub info: Info,
    pub settings: FormSettings,
    /// Section headers, questions, embedded media and the like.
    pub items: Vec<Item>,
    revision_id: String,
    responder_uri: String,
    linked_sheet_id: String,
}

impl Form {
    pub closed spec fn spec_form_id(&self) -> Seq<char> {
        self.form_id@
    }

    pub closed spec fn spec_revision_id(&self) -> Seq<char> {
        self.revision_id@
    }

    pub closed spec fn spec_responder_uri(&self) -> Seq<char> {
        self.responder_uri@
    }

    pub closed spec fn spec_linked_sheet_id(&self) -> Seq<char> {
        self.linked_sheet_id@
    }

    /// The form's identifier, set by the service.
    pub fn form_id(&self) -> (r: String)
        ensures
            r@ == self.spec_form_id(),
    {
        self.form_id.clone()
    }

    /// The revision on which the form stands, set by the service.
    pub fn revision_id(&self) -> (r: String)
        ensures
            r@ == self.spec_revision_id(),
    {
        self.revision_id.clone()
    }

    /// The address at which responders fill in the form.
    pub fn responder_uri(&self) -> (r: String)
        ensures
            r@ == self.spec_responder_uri(),
    {
        self.responder_uri.clone()
    }

    /// The sheet that collects the responses, if any.
    pub fn linked_sheet_id(&self) -> (r: String)
        ensures
            r@ == self.spec_linked_sheet_id(),
    {
        self.linked_sheet_id.clone()
    }
}

/// The general information of a form.
pub struct Info {
    /// The title shown to responders.
    pub title: String,
    document_title: String,
    pub description: String,
}

impl Info {
    pub closed spec fn spec_document_title(&self) -> Seq<char> {
        self.document_title@
    }

    /// The title of the document, set by the service.
    pub fn document_title(&self) -> (r: String)
        ensures
            r@ == self.spec_document_title(),
    {
        self.document_title.clone()
    }
}

/// A form's settings.
pub struct FormSettings {
    pub quiz_settings: QuizSettings,
}

/// Settings of quiz forms and grading.
pub struct QuizSettings {
    pub is_quiz: bool,
}

/// A single item of the form; `kind` says which.
pub struct Item {
    pub item_id: String,
    pub title: String,
    pub description: String,
    pub kind: ItemKind,
}

/// The kind of an item.
pub enum ItemKind {
    QuestionItem(QuestionItem),
    QuestionGroupItem(QuestionGroupItem),
    PageBreakItem(PageBreakItem),
    TextItem(TextItem),
    ImageItem(ImageItem),
    VideoItem(VideoItem),
}

/// An item holding a single question.
pub struct QuestionItem {
    pub question: Question,
    pub image: Image,
}

/// Any question; `kind` says which.
pub struct Question {
    question_id: String,
    /// Whether a response must answer it.
    pub required: bool,
    pub grading: Grading,
    pub kind: QuestionKind,
}

impl Question {
    pub closed spec fn spec_question_id(&self) -> Seq<char> {
        self.question_id@
    }

    /// The question's identifier, set by the service.
    pub fn question_id(&self) -> (r: String)
        ensures
            r@ == self.spec_question_id(),
    {
        self.question_id.clone()
    }
}

/// The type of a question of the service.
pub enum QuestionKind {
    ChoiceQuestion(ChoiceQuestion),
    TextQuestion(TextQuestion),
    ScaleQuestion(ScaleQuestion),
    DateQuestion(DateQuestion),
    TimeQuestion(TimeQuestion),
    FileUploadQuestion(FileUploadQuestion),
    RowQuestion(RowQuestion),
}

/// A radio, checkbox or dropdown question.
pub struct ChoiceQuestion {
    pub _type: ChoiceType,
    pub options: Vec<ChoiceOption>,
    /// Whether the options are shown in a random order.
    pub shuffle: bool,
}

/// The type of choice.
pub enum ChoiceType {
    ChoiceTypeUnspecified,
    Radio,
    Checkbox,
    DropDown,
}

/// An option of a choice question.
pub struct ChoiceOption {
    pub value: String,
    pub image: Image,
    /// Whether this is the "other" option.
    pub is_other: bool,
    pub go_to_section: GoToSection,
}

/// Where to go when this option is picked.
pub enum GoToSection {
    GoToAction(GoToAction),
    GoToSectionId(String),
}

/// Section navigation.
pub enum GoToAction {
    GoToActionUnspecified,
    NextSection,
    RestartForm,
    SubmitForm,
}

/// An image.
pub struct Image {
    content_uri: String,
    pub alt_text: String,
    pub properties: MediaProperties,
    pub source_uri: String,
}

impl Image {
    pub closed spec fn spec_content_uri(&self) -> Seq<char> {
        self.content_uri@
    }

    /// Where the image can be downloaded, set by the service.
    pub fn content_uri(&self) -> (r: String)
        ensures
            r@ == self.spec_content_uri(),
    {
        self.content_uri.clone()
    }
}

/// Properties of embedded media.
pub struct MediaProperties {
    pub alignment: Alignment,
    /// Width in pixels.
    pub width: i32,
}

/// Alignment on the page.
pub enum Alignment {
    AlignmentUnspecified,
    Left,
    Right,
    Center,
}

/// A text question.
pub struct TextQuestion {
    /// A paragraph rather than a short answer.
    pub paragraph: bool,
}

/// A scale question.
pub struct ScaleQuestion {
    pub low: i32,
    pub high: i32,
    pub low_label: String,
    pub high_label: String,
}

/// A date question.
pub struct DateQuestion {
    pub include_time: bool,
    pub include_year: bool,
}

/// A time question.
pub struct TimeQuestion {
    /// An elapsed time rather than a time of day.
    pub duration: bool,
}

/// A file upload question.
pub struct FileUploadQuestion {
    pub folder_id: String,
    pub types: Vec<FileType>,
    pub max_files: usize,
    pub max_file_size: i64,
}

/// File types that can be uploaded.
#[allow(non_camel_case_types)]
pub enum FileType {
    FileTypeUnspecified,
    Any,
    Document,
    Presentation,
    Spreadsheet,
    Drawing,
    PDF,
    Image,
    Video,
    Audio,
}

/// One row of a question group.
pub struct RowQuestion {
    pub title: String,
}

/// Grading of a single question.
pub struct Grading {
    pub point_value: i32,
    pub correct_answers: CorrectAnswers,
    pub when_right: Feedback,
    pub when_wrong: Feedback,
    pub general_feedback: Feedback,
}

/// The answer key of a question.
pub struct CorrectAnswers {
    pub answers: Vec<CorrectAnswer>,
}

/// One correct answer.
pub struct CorrectAnswer {
    pub value: String,
}

/// Several questions under one prompt.
pub struct QuestionGroupItem {
    pub questions: Vec<Question>,
    pub image: Image,
    pub grid: Grid,
}

/// A grid of choices, each row a question.
pub struct Grid {
    pub columns: ChoiceQuestion,
    pub shuffle_questions: bool,
}

/// A page break.
pub struct PageBreakItem;

/// A text item.
pub struct TextItem;

/// An item holding an image.
pub struct ImageItem {
    pub image: Image,
}

/// An item holding a video.
pub struct VideoItem {
    pub video: Video,
    pub caption: String,
}

/// A video.
pub struct Video {
    pub youtube_uri: String,
    pub properties: MediaProperties,
}

/// Changes a form with a batch of updates. No service is reached: the call
/// always fails.
pub fn batch_update(form_id: String, request: BatchUpdateFormRequest) -> (r: Result<
    BatchUpdateFormResponse,
    (),
>)
    ensures
        r is Err,
{
    Err(())
}

/// Request body of `batch_update`.
pub struct BatchUpdateFormRequest {
    pub include_form_in_response: bool,
    pub requests: Vec<Request>,
    pub write_control: WriteControl,
}

/// Response body of `batch_update`.
pub struct BatchUpdateFormResponse {
    pub form: Form,
    pub replies: Vec<Response>,
    pub write_control: WriteControl,
}

/// One update request.
pub struct Request {
    pub kind: UpdateKind,
}

/// The kind of an update request.
pub enum UpdateKind {
    UpdateFormInfo(UpdateFormInfoRequest),
    UpdateSettings(UpdateSettingsRequest),
    CreateItem(CreateItemRequest),
    MoveItem(MoveItemRequest),
    DeleteItem(DeleteItemRequest),
    UpdateItem(UpdateItemRequest),
}

/// Updates the form's info.
pub struct UpdateFormInfoRequest {
    pub info: Info,
    /// Comma-separated names of the fields to change.
    pub update_mask: String,
}

/// Updates the form's settings.
pub struct UpdateSettingsRequest {
    pub settings: FormSettings,
    pub update_mask: String,
}

/// Creates an item.
pub struct CreateItemRequest {
    pub item: Item,
    pub location: Location,
}

/// A position in a form.
pub struct Location {
    pub index: i32,
}

/// Moves an item.
pub struct MoveItemRequest {
    pub original_location: Location,
    pub new_location: Location,
}

/// Deletes an item.
pub struct DeleteItemRequest {
    pub location: Location,
}

/// Updates an item.
pub struct UpdateItemRequest {
    pub item: Item,
    pub location: Location,
    pub update_mask: String,
}

/// How a write request is applied.
pub struct WriteControl {
    pub control: ControlKind,
}

/// The revision that a write request is based on.
pub enum ControlKind {
    RequiredRevisionId(String),
    TargetRevisionId(String),
}

/// The reply to one update.
pub struct Response {
    pub create_item: CreateItemResponse,
}

/// The result of creating an item.
pub struct CreateItemResponse {
    pub item_id: String,
    pub question_id: Vec<String>,
}

/// Creates a form from the title in `request`. No service is reached: the
/// call always fails.
pub fn create(request: Form) -> (r: Result<Form, ()>)
    ensures
        r is Err,
{
    Err(())
}

/// Fetches a form. No service is reached: the call always fails.
pub fn get(form_id: String) -> (r: Result<Form, ()>)
    ensures
        r is Err,
{
    Err(())
}

} // verus!
