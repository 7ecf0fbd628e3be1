//! The todo record and the two shapes a client sends.

use vstd::prelude::*;

verus! {

/// A todo item as it is sent to a client.
#[derive(Clone, Debug, PartialEq, Eq)]
pub struct Todo {
    pub id: u64,
    pub title: String,
    pub body: String,
}

/// What a `Todo` holds, with its texts as sequences of characters.
pub struct TodoView {
    pub id: u64,
    pub title: Seq<char>,
    pub body: Seq<char>,
}

impl View for Todo {
    type V = TodoView;

    open spec fn view(&self) -> TodoView {
        TodoView { id: self.id, title: self.title@, body: self.body@ }
    }
}

/// The views of a list of todos, in the list's order.
pub open spec fn views_of(list: Seq<Todo>) -> Seq<TodoView> {
    list.map_values(|t: Todo| t@)
}

/// What a client sends to create a todo: both texts are mandatory.
#[derive(Clone, Debug, PartialEq, Eq)]
pub struct CreateTodo {
    pub title: String,
    pub body: String,
}

/// What a client sends to update a todo: each text may be left out.
#[derive(Clone, Debug, PartialEq, Eq)]
pub struct UpdateTodo {
    pub title: Option<String>,
    pub body: Option<String>,
}

/// A request body after decoding: the two text fields, each as far as the
/// body held it.
#[derive(Clone, Debug, PartialEq, Eq)]
pub struct Payload {
    pub title: Option<String>,
    pub body: Option<String>,
}

/// Why a decoded body is not what an operation needs.
#[derive(Clone, Copy, Debug, PartialEq, Eq, Structural)]
pub enum DecodeError {
    /// The body has no `title`.
    MissingTitle,
    /// The body has a `title` and no `body`.
    MissingBody,
}

/// The status code that answers a body with a missing field.
pub const UNPROCESSABLE_ENTITY: u16 = 422;

/// Whether `code` is a status code of the client-error class.
pub open spec fn is_client_error(code: u16) -> bool {
    400 <= code < 500
}

/// What is missing in `payload` for a create, if anything is. A missing
/// title is reported before a missing body.
pub open spec fn missing_for_create(payload: Payload) -> Option<DecodeError> {
    if payload.title.is_none() {
        Some(DecodeError::MissingTitle)
    } else if payload.body.is_none() {
        Some(DecodeError::MissingBody)
    } else {
        None
    }
}

impl DecodeError {
    /// The status code of the response that reports this error.
    pub fn status(&self) -> (code: u16)
        ensures
            code == UNPROCESSABLE_ENTITY,
            is_client_error(code),
    {
        UNPROCESSABLE_ENTITY
    }
}

impl Payload {
    /// The payload of a request that came without a body.
    pub fn empty() -> (payload: Payload)
        ensures
            payload.title.is_none(),
            payload.body.is_none(),
    {
        Payload { title: None, body: None }
    }
}

impl CreateTodo {
    /// Takes the two texts out of a decoded body. Both must be there.
    pub fn from_payload(payload: Payload) -> (made: Result<CreateTodo, DecodeError>)
        ensures
            match made {
                Ok(input) => missing_for_create(payload).is_none()
                    && payload.title == Some(input.title)
                    && payload.body == Some(input.body),
                Err(e) => missing_for_create(payload) == Some(e),
            },
    {
        match payload.title {
            None => Err(DecodeError::MissingTitle),
            Some(title) => match payload.body {
                None => Err(DecodeError::MissingBody),
                Some(body) => Ok(CreateTodo { title, body }),
            },
        }
    }
}

impl UpdateTodo {
    /// Takes the two texts out of a decoded body, each as far as it is there.
    pub fn from_payload(payload: Payload) -> (input: UpdateTodo)
        ensures
            input.title == payload.title,
            input.body == payload.body,
    {
        UpdateTodo { title: payload.title, body: payload.body }
    }
}

/// A body without a title is refused for a create, whatever else it holds,
/// and the refusal is a client error.
pub proof fn lemma_missing_title_is_refused(payload: Payload)
    requires
        payload.title.is_none(),
    ensures
        missing_for_create(payload) == Some(DecodeError::MissingTitle),
        is_client_error(UNPROCESSABLE_ENTITY),
{
}

/// The text of an optional field, or `fallback` where the field is absent.
pub open spec fn text_or(field: Option<String>, fallback: Seq<char>) -> Seq<char> {
    match field {
        Some(text) => text@,
        None => fallback,
    }
}

} // verus!
