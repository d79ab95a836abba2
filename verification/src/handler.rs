//! The request handlers: each makes one store operation and says with which
//! status, content type and payload its outcome is answered.

use vstd::prelude::*;
use crate::message::not_found_text;
use crate::model::StoreModel;
use crate::store::{title_view, Store, StoreError};
use crate::todo::{todo_views, CreateTodo, Todo, TodoData, UpdateTodo};

verus! {

/// The status of a response.
#[derive(Clone, Copy, Debug, PartialEq, Eq, Structural)]
pub enum Status {
    Success,
    Created,
    NoContent,
    NotFound,
}

impl Status {
    pub open spec fn code_spec(self) -> u16 {
        match self {
            Status::Success => 200,
            Status::Created => 201,
            Status::NoContent => 204,
            Status::NotFound => 404,
        }
    }

    /// The number of the status.
    #[verifier::when_used_as_spec(code_spec)]
    pub fn code(self) -> (code: u16)
        ensures
            code == self.code_spec(),
    {
        match self {
            Status::Success => 200,
            Status::Created => 201,
            Status::NoContent => 204,
            Status::NotFound => 404,
        }
    }
}

/// The content type that a response declares.
#[derive(Clone, Copy, Debug, PartialEq, Eq, Structural)]
pub enum ContentType {
    /// The response has no payload and declares nothing.
    Unset,
    /// `application/json`
    Json,
    /// `application/json; charset=utf-8`
    JsonUtf8,
}

impl ContentType {
    pub open spec fn header_spec(self) -> Option<Seq<char>> {
        match self {
            ContentType::Unset => None,
            ContentType::Json => Some("application/json"@),
            ContentType::JsonUtf8 => Some("application/json; charset=utf-8"@),
        }
    }

    /// The value of the content type header, if the response has one.
    pub fn header(self) -> (value: Option<&'static str>)
        ensures
            match value {
                Some(text) => self.header_spec() == Some(text@),
                None => self.header_spec() is None,
            },
    {
        match self {
            ContentType::Unset => None,
            ContentType::Json => Some("application/json"),
            ContentType::JsonUtf8 => Some("application/json; charset=utf-8"),
        }
    }
}

/// The payload that reports a failure.
#[derive(Debug, PartialEq, Eq)]
pub struct ErrorResponse {
    pub message: String,
}

/// The payload of a response.
#[derive(Debug, PartialEq, Eq)]
pub enum Body {
    Empty,
    Todo(Todo),
    Todos(Vec<Todo>),
    Error(ErrorResponse),
}

/// A payload as a mathematical value.
pub enum BodyData {
    Empty,
    Todo(TodoData),
    Todos(Seq<TodoData>),
    Error(Seq<char>),
}

impl View for Body {
    type V = BodyData;

    open spec fn view(&self) -> BodyData {
        match self {
            Body::Empty => BodyData::Empty,
            Body::Todo(todo) => BodyData::Todo(todo@),
            Body::Todos(todos) => BodyData::Todos(todo_views(todos@)),
            Body::Error(error) => BodyData::Error(error.message@),
        }
    }
}

/// What a handler answers.
#[derive(Debug, PartialEq, Eq)]
pub struct Response {
    pub status: Status,
    pub content_type: ContentType,
    pub body: Body,
}

/// A response as a mathematical value.
pub struct ResponseData {
    pub status: Status,
    pub content_type: ContentType,
    pub body: BodyData,
}

impl View for Response {
    type V = ResponseData;

    open spec fn view(&self) -> ResponseData {
        ResponseData { status: self.status, content_type: self.content_type, body: self.body@ }
    }
}

/// The answer to a request for a record that is not there.
pub open spec fn not_found_response(id: nat, content_type: ContentType) -> ResponseData {
    ResponseData {
        status: Status::NotFound,
        content_type,
        body: BodyData::Error(not_found_text(id)),
    }
}

/// `response` answers a request for all records of `store`: status 200, and
/// each record exactly once, in some order.
pub open spec fn is_list_response(store: StoreModel, response: ResponseData) -> bool {
    &&& response.status == Status::Success
    &&& response.content_type == ContentType::JsonUtf8
    &&& response.body matches BodyData::Todos(listing)
    &&& store.is_listing(listing)
}

/// The answer to a request that creates a record titled `title`.
pub open spec fn create_response(store: StoreModel, title: Seq<char>) -> ResponseData {
    ResponseData {
        status: Status::Created,
        content_type: ContentType::JsonUtf8,
        body: BodyData::Todo(store.created(title)),
    }
}

/// The answer to a request for the record under `id`.
pub open spec fn get_response(store: StoreModel, id: nat) -> ResponseData {
    match store.get(id) {
        Some(todo) => ResponseData {
            status: Status::Success,
            content_type: ContentType::JsonUtf8,
            body: BodyData::Todo(todo),
        },
        None => not_found_response(id, ContentType::Json),
    }
}

/// The answer to a request that updates the record under `id`.
pub open spec fn update_response(
    store: StoreModel,
    id: nat,
    title: Option<Seq<char>>,
    completed: Option<bool>,
) -> ResponseData {
    if store.contains(id) {
        ResponseData {
            status: Status::Success,
            content_type: ContentType::JsonUtf8,
            body: BodyData::Todo(store.patched(id, title, completed)),
        }
    } else {
        not_found_response(id, ContentType::JsonUtf8)
    }
}

/// The answer to a request that deletes the record under `id`.
pub open spec fn delete_response(store: StoreModel, id: nat) -> ResponseData {
    if store.contains(id) {
        ResponseData {
            status: Status::NoContent,
            content_type: ContentType::Unset,
            body: BodyData::Empty,
        }
    } else {
        not_found_response(id, ContentType::Json)
    }
}

/// The response that reports `error`.
fn not_found(error: StoreError, content_type: ContentType) -> (response: Response)
    ensures
        error matches StoreError::NotFound(id) && response@ == not_found_response(
            id as nat,
            content_type,
        ),
{
    Response {
        status: Status::NotFound,
        content_type,
        body: Body::Error(ErrorResponse { message: error.message() }),
    }
}

/// Lists all records.
pub fn get_todos(store: &Store) -> (response: Response)
    ensures
        is_list_response(store@, response@),
        store@.wf(),
{
    let listing = store.list_all();
    Response { status: Status::Success, content_type: ContentType::JsonUtf8, body: Body::Todos(listing) }
}

/// Creates a record with the title of `payload`.
pub fn create_todo(store: &mut Store, payload: CreateTodo) -> (response: Response)
    requires
        old(store)@.next_id <= u32::MAX,
    ensures
        final(store)@ == old(store)@.create(payload.title@),
        response@ == create_response(old(store)@, payload.title@),
        final(store)@.wf(),
{
    let todo = store.create(payload.title);
    Response { status: Status::Created, content_type: ContentType::JsonUtf8, body: Body::Todo(todo) }
}

/// Fetches the record under `id`.
pub fn get_todo_by_id(store: &Store, id: u32) -> (response: Response)
    ensures
        response@ == get_response(store@, id as nat),
        store@.wf(),
{
    match store.get(id) {
        Ok(todo) => Response {
            status: Status::Success,
            content_type: ContentType::JsonUtf8,
            body: Body::Todo(todo),
        },
        Err(error) => not_found(error, ContentType::Json),
    }
}

/// Replaces the fields of the record under `id` that `payload` supplies.
pub fn update_todo(store: &mut Store, id: u32, payload: UpdateTodo) -> (response: Response)
    ensures
        final(store)@ == old(store)@.update(id as nat, title_view(payload.title), payload.completed),
        response@ == update_response(
            old(store)@,
            id as nat,
            title_view(payload.title),
            payload.completed,
        ),
        final(store)@.wf(),
{
    match store.update(id, payload.title, payload.completed) {
        Ok(todo) => Response {
            status: Status::Success,
            content_type: ContentType::JsonUtf8,
            body: Body::Todo(todo),
        },
        Err(error) => not_found(error, ContentType::JsonUtf8),
    }
}

/// Deletes the record under `id`.
pub fn delete_todo(store: &mut Store, id: u32) -> (response: Response)
    ensures
        final(store)@ == old(store)@.delete(id as nat),
        response@ == delete_response(old(store)@, id as nat),
        final(store)@.wf(),
{
    match store.delete(id) {
        Ok(_) => Response {
            status: Status::NoContent,
            content_type: ContentType::Unset,
            body: Body::Empty,
        },
        Err(error) => not_found(error, ContentType::Json),
    }
}

} // verus!
