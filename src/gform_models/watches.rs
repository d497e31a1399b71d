//! Watches: notifications of changes to a form.
use vstd::prelude::*;

verus! {

/// A watch for events on a form.
#[derive(Clone)]
pub struct Watch {
    pub id: String,
    pub target: WatchTarget,
    pub event_type: EventType,
    pub create_time: String,
    pub expire_time: String,
    pub error_type: ErrorType,
    pub state: State,
}

/// Where notifications are delivered.
#[derive(Clone)]
pub struct WatchTarget {
    pub topic: CloudPubsubTopic,
}

/// A topic that receives notifications.
#[derive(Clone)]
pub struct CloudPubsubTopic {
    pub topic_name: String,
}

/// The kinds of event that a watch reports.
#[derive(Clone)]
pub enum EventType {
    EventTypeUnspecified,
    Schema,
    Responses,
}

/// Why a watch failed.
#[derive(Clone)]
pub enum ErrorType {
    ErrorTypeUnspecified,
    ProjectNotAuthorized,
    NoUserAccess,
    OtherErrors,
}

/// The state of a watch.
#[derive(Clone)]
pub enum State {
    StateUnspecified,
    Active,
    Suspended,
}

/// Creates a watch. No service is reached: the call always fails.
pub fn create(form_id: String, request: CreateWatchRequest) -> (r: Result<Watch, ()>)
    ensures
        r is Err,
{
    Err(())
}

/// Request body for `create`.
#[derive(Clone)]
pub struct CreateWatchRequest {
    pub watch: Watch,
    pub watch_id: String,
}

/// Deletes a watch. No service is reached: the call always fails.
pub fn delete(form_id: String, watch_id: String) -> (r: Result<(), ()>)
    ensures
        r is Err,
{
    Err(())
}

/// Lists the watches of a form. No service is reached: the call always fails.
pub fn list(form_id: String) -> (r: Result<ListWatchesResponse, ()>)
    ensures
        r is Err,
{
    Err(())
}

/// Response body for `list`.
#[derive(Clone)]
pub struct ListWatchesResponse {
    pub watches: Vec<Watch>,
}

/// Renews a watch. No service is reached: the call always fails.
pub fn renew(form_id: String, watch_id: String) -> (r: Result<Watch, ()>)
    ensures
        r is Err,
{
    Err(())
}

} // verus!
