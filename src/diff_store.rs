use vstd::prelude::*;
use crate::error::Error;
use crate::schemas::{HarvestEvent, HarvestEventType, InputEvent, same_text};

verus! {

/// Path of the diff store's graph resource, relative to its base URL.
pub const GRAPHS_PATH: &'static str = "/api/graphs";

/// Name of the header that carries the diff store's API key.
pub const API_KEY_HEADER: &'static str = "X-API-KEY";

/// Which subject kind a worker pool processes.
#[derive(Debug, Clone, Copy, PartialEq, Eq, Structural)]
pub enum PostmanType {
    Dataset,
    Concept,
    Unknown,
}

/// What a worker does with an event in the diff store.
#[derive(Debug, Clone, Copy, PartialEq, Eq, Structural)]
pub enum DiffStoreAction {
    PostGraph,
    DeleteGraph,
    Nothing,
}

/// The subject mode that a configuration value names.
pub open spec fn postman_type_of(s: Seq<char>) -> PostmanType {
    if s == "dataset"@ {
        PostmanType::Dataset
    } else if s == "concept"@ {
        PostmanType::Concept
    } else {
        PostmanType::Unknown
    }
}

/// Reads the configured subject mode; a value other than `dataset` or
/// `concept` gives `Unknown`, under which no event is acted on.
pub fn get_postman_type(postman_type_string: String) -> (r: PostmanType)
    ensures
        r == postman_type_of(postman_type_string@),
{
    if same_text(postman_type_string.as_str(), "dataset") {
        PostmanType::Dataset
    } else if same_text(postman_type_string.as_str(), "concept") {
        PostmanType::Concept
    } else {
        PostmanType::Unknown
    }
}

/// The subject kind that an event type belongs to, if any.
pub open spec fn subject_of(t: HarvestEventType) -> Option<PostmanType> {
    match t {
        HarvestEventType::DatasetHarvested
        | HarvestEventType::DatasetReasoned
        | HarvestEventType::DatasetRemoved => Some(PostmanType::Dataset),
        HarvestEventType::ConceptHarvested
        | HarvestEventType::ConceptReasoned
        | HarvestEventType::ConceptRemoved => Some(PostmanType::Concept),
        HarvestEventType::Unknown => None,
    }
}

/// Raw intake, of either subject kind.
pub open spec fn is_harvested(t: HarvestEventType) -> bool {
    t == HarvestEventType::DatasetHarvested || t == HarvestEventType::ConceptHarvested
}

/// Post-processed content, of either subject kind.
pub open spec fn is_reasoned(t: HarvestEventType) -> bool {
    t == HarvestEventType::DatasetReasoned || t == HarvestEventType::ConceptReasoned
}

/// Removal of a resource, of either subject kind.
pub open spec fn is_removed(t: HarvestEventType) -> bool {
    t == HarvestEventType::DatasetRemoved || t == HarvestEventType::ConceptRemoved
}

/// Whether an event type belongs to the subject kind a worker pool processes.
pub open spec fn matches_mode(t: HarvestEventType, mode: PostmanType) -> bool {
    subject_of(t) == Some(mode)
}

/// The action for an event type under a subject mode.
pub open spec fn action_for(t: HarvestEventType, mode: PostmanType) -> DiffStoreAction {
    match (t, mode) {
        (HarvestEventType::DatasetReasoned, PostmanType::Dataset) => DiffStoreAction::PostGraph,
        (HarvestEventType::DatasetRemoved, PostmanType::Dataset) => DiffStoreAction::DeleteGraph,
        (HarvestEventType::ConceptReasoned, PostmanType::Concept) => DiffStoreAction::PostGraph,
        (HarvestEventType::ConceptRemoved, PostmanType::Concept) => DiffStoreAction::DeleteGraph,
        _ => DiffStoreAction::Nothing,
    }
}

/// Resolves the action for an event type under a subject mode.
pub fn event_to_action(event_type: HarvestEventType, postman_type: PostmanType) -> (r:
    DiffStoreAction)
    ensures
        r == action_for(event_type, postman_type),
{
    match (event_type, postman_type) {
        (HarvestEventType::DatasetReasoned, PostmanType::Dataset) => DiffStoreAction::PostGraph,
        (HarvestEventType::DatasetRemoved, PostmanType::Dataset) => DiffStoreAction::DeleteGraph,
        (HarvestEventType::ConceptReasoned, PostmanType::Concept) => DiffStoreAction::PostGraph,
        (HarvestEventType::ConceptRemoved, PostmanType::Concept) => DiffStoreAction::DeleteGraph,
        _ => DiffStoreAction::Nothing,
    }
}

/// Action resolution follows its table for every event type and subject mode:
/// harvested events and unknown events are never acted on; a reasoned event is
/// posted, and a removed event deleted, exactly when it belongs to the mode's
/// subject kind.
pub proof fn lemma_action_table(t: HarvestEventType, mode: PostmanType)
    ensures
        is_harvested(t) ==> action_for(t, mode) == DiffStoreAction::Nothing,
        is_reasoned(t) && matches_mode(t, mode) ==> action_for(t, mode)
            == DiffStoreAction::PostGraph,
        is_reasoned(t) && !matches_mode(t, mode) ==> action_for(t, mode)
            == DiffStoreAction::Nothing,
        is_removed(t) && matches_mode(t, mode) ==> action_for(t, mode)
            == DiffStoreAction::DeleteGraph,
        is_removed(t) && !matches_mode(t, mode) ==> action_for(t, mode)
            == DiffStoreAction::Nothing,
        t == HarvestEventType::Unknown ==> action_for(t, mode) == DiffStoreAction::Nothing,
        is_harvested(t) || is_reasoned(t) || is_removed(t) || t == HarvestEventType::Unknown,
{
}

/// Resolving the action twice for the same event type and subject mode gives
/// the same action: resolution depends on nothing else.
pub proof fn lemma_action_deterministic(
    t: HarvestEventType,
    mode: PostmanType,
    first: DiffStoreAction,
    second: DiffStoreAction,
)
    requires
        first == action_for(t, mode),
        second == action_for(t, mode),
    ensures
        first == second,
{
}

/// A call to make against the diff store.
#[derive(Debug)]
pub enum DiffStoreRequest {
    /// `POST` of `{"id": id, "graph": graph}`.
    PostGraph { id: String, graph: String },
    /// `DELETE` of `{"id": id}`.
    DeleteGraph { id: String },
}

/// The action that a request carries out.
pub open spec fn request_action(req: DiffStoreRequest) -> DiffStoreAction {
    match req {
        DiffStoreRequest::PostGraph { .. } => DiffStoreAction::PostGraph,
        DiffStoreRequest::DeleteGraph { .. } => DiffStoreAction::DeleteGraph,
    }
}

/// The resource id that a request is about.
pub open spec fn request_id(req: DiffStoreRequest) -> String {
    match req {
        DiffStoreRequest::PostGraph { id, .. } => id,
        DiffStoreRequest::DeleteGraph { id } => id,
    }
}

impl DiffStoreRequest {
    /// The HTTP method of the request.
    pub fn method(&self) -> (r: &'static str)
        ensures
            request_action(*self) == DiffStoreAction::PostGraph ==> r@ == "POST"@,
            request_action(*self) == DiffStoreAction::DeleteGraph ==> r@ == "DELETE"@,
    {
        match self {
            DiffStoreRequest::PostGraph { .. } => "POST",
            DiffStoreRequest::DeleteGraph { .. } => "DELETE",
        }
    }

    /// The action that the request carries out.
    pub fn action(&self) -> (r: DiffStoreAction)
        ensures
            r == request_action(*self),
    {
        match self {
            DiffStoreRequest::PostGraph { .. } => DiffStoreAction::PostGraph,
            DiffStoreRequest::DeleteGraph { .. } => DiffStoreAction::DeleteGraph,
        }
    }

    /// The resource id that the request is about.
    pub fn id(&self) -> (r: &String)
        ensures
            *r == request_id(*self),
    {
        match self {
            DiffStoreRequest::PostGraph { id, .. } => id,
            DiffStoreRequest::DeleteGraph { id } => id,
        }
    }
}

/// The request, if any, that an event calls for under a subject mode.
pub open spec fn request_for(event: HarvestEvent, mode: PostmanType) -> Option<DiffStoreRequest> {
    match action_for(event.event_type, mode) {
        DiffStoreAction::PostGraph => Some(
            DiffStoreRequest::PostGraph { id: event.fdk_id, graph: event.graph },
        ),
        DiffStoreAction::DeleteGraph => Some(DiffStoreRequest::DeleteGraph { id: event.fdk_id }),
        DiffStoreAction::Nothing => None,
    }
}

/// The request, if any, that a decoded message calls for under a subject mode;
/// a message of an unknown kind calls for none.
pub open spec fn request_for_input(event: InputEvent, mode: PostmanType) -> Option<
    DiffStoreRequest,
> {
    match event {
        InputEvent::HarvestEvent(e) => request_for(e, mode),
        InputEvent::Unknown { .. } => None,
    }
}

/// The action that a decoded message calls for under a subject mode.
pub open spec fn input_action(event: InputEvent, mode: PostmanType) -> DiffStoreAction {
    match event {
        InputEvent::HarvestEvent(e) => action_for(e.event_type, mode),
        InputEvent::Unknown { .. } => DiffStoreAction::Nothing,
    }
}

/// Builds the diff store call that an event calls for: the graph is posted for
/// a post action, the id alone is sent for a delete, and no call is made otherwise.
pub fn diff_store_request(event: HarvestEvent, postman_type: PostmanType) -> (r: Option<
    DiffStoreRequest,
>)
    ensures
        r == request_for(event, postman_type),
{
    match event_to_action(event.event_type, postman_type) {
        DiffStoreAction::PostGraph => Some(
            DiffStoreRequest::PostGraph { id: event.fdk_id, graph: event.graph },
        ),
        DiffStoreAction::DeleteGraph => Some(DiffStoreRequest::DeleteGraph { id: event.fdk_id }),
        DiffStoreAction::Nothing => None,
    }
}

/// Builds the diff store call that a decoded message calls for; a message of
/// an unknown kind is skipped.
pub fn input_event_request(event: InputEvent, postman_type: PostmanType) -> (r: Option<
    DiffStoreRequest,
>)
    ensures
        r == request_for_input(event, postman_type),
        r is Some <==> input_action(event, postman_type) != DiffStoreAction::Nothing,
{
    match event {
        InputEvent::HarvestEvent(e) => diff_store_request(e, postman_type),
        InputEvent::Unknown { .. } => None,
    }
}

/// The one status that the diff store answers a successful call with.
pub const OK_STATUS: u16 = 200;

/// Whether a response status means that the diff store accepted the call.
pub fn is_success_status(status: u16) -> (r: bool)
    ensures
        r == (status == 200),
{
    status == OK_STATUS
}

/// The outcome of a forward call from the diff store's answer: success on
/// status 200 alone; any other status, other 2xx ones included, is an error
/// that names the action, the resource id, the status and the response body.
pub fn forward_outcome(request: &DiffStoreRequest, status: u16, body: String) -> (r: Result<
    (),
    Error,
>)
    ensures
        status == 200 ==> r is Ok,
        status != 200 ==> r == Err::<(), Error>(
            Error::DiffStoreResponse {
                action: request_action(*request),
                fdk_id: request_id(*request),
                status,
                body,
            },
        ),
{
    if is_success_status(status) {
        Ok(())
    } else {
        Err(
            Error::DiffStoreResponse {
                action: request.action(),
                fdk_id: request.id().clone(),
                status,
                body,
            },
        )
    }
}

} // verus!
