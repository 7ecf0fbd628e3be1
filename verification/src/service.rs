//! One contract for all four operations: from the operation that the table
//! found and the decoded body to the answer, or to the reason why the body
//! does not serve.

use crate::handlers::{create_todo, created, delete_todo, deleted, listed, todos, update_todo, updated};
use crate::model::{
    missing_for_create, views_of, CreateTodo, DecodeError, Payload, Todo, TodoView, UpdateTodo,
};
use crate::route::Endpoint;
use vstd::prelude::*;

verus! {

/// What an operation answers with.
#[derive(Clone, Debug, PartialEq, Eq)]
pub enum Reply {
    /// The list of todos.
    Listing(Vec<Todo>),
    /// One todo.
    Item(Todo),
}

/// What a `Reply` holds, with each todo by its view.
pub enum ReplyView {
    Listing(Seq<TodoView>),
    Item(TodoView),
}

impl View for Reply {
    type V = ReplyView;

    open spec fn view(&self) -> ReplyView {
        match *self {
            Reply::Listing(list) => ReplyView::Listing(views_of(list@)),
            Reply::Item(todo) => ReplyView::Item(todo@),
        }
    }
}

/// The answer to `endpoint` with the body `payload`. Only a create can
/// fail, and only for a missing field; a list and a delete do not look at
/// the body.
pub open spec fn reply_of(endpoint: Endpoint, payload: Payload) -> Result<ReplyView, DecodeError> {
    match endpoint {
        Endpoint::List => Ok(ReplyView::Listing(listed())),
        Endpoint::Create => match missing_for_create(payload) {
            Some(e) => Err(e),
            None => Ok(ReplyView::Item(created(payload.title.unwrap()@, payload.body.unwrap()@))),
        },
        Endpoint::Update { id } => Ok(ReplyView::Item(updated(id, payload.title, payload.body))),
        Endpoint::Delete { id } => Ok(ReplyView::Item(deleted(id))),
    }
}

/// Carries out the operation `endpoint` on the decoded body `payload`.
pub fn respond(endpoint: Endpoint, payload: Payload) -> (answer: Result<Reply, DecodeError>)
    ensures
        match answer {
            Ok(reply) => reply_of(endpoint, payload) == Ok::<ReplyView, DecodeError>(reply@),
            Err(e) => reply_of(endpoint, payload) == Err::<ReplyView, DecodeError>(e),
        },
{
    match endpoint {
        Endpoint::List => Ok(Reply::Listing(todos())),
        Endpoint::Create => match CreateTodo::from_payload(payload) {
            Ok(input) => Ok(Reply::Item(create_todo(input))),
            Err(e) => Err(e),
        },
        Endpoint::Update { id } => Ok(Reply::Item(update_todo(id, UpdateTodo::from_payload(payload)))),
        Endpoint::Delete { id } => Ok(Reply::Item(delete_todo(id))),
    }
}

/// The answer to a create holds the same id whatever the body holds, and
/// the body's own two texts.
pub proof fn lemma_create_echoes(payload: Payload)
    requires
        missing_for_create(payload).is_none(),
    ensures
        reply_of(Endpoint::Create, payload) == Ok::<ReplyView, DecodeError>(
            ReplyView::Item(
                TodoView {
                    id: 42,
                    title: payload.title.unwrap()@,
                    body: payload.body.unwrap()@,
                },
            ),
        ),
{
}

/// A delete answers as an update without fields does.
pub proof fn lemma_delete_is_bare_update(id: u64, payload: Payload)
    ensures
        reply_of(Endpoint::Delete { id }, payload) == reply_of(
            Endpoint::Update { id },
            Payload { title: None, body: None },
        ),
{
}

/// The list is the same for every body, and so is a delete: no operation
/// leaves anything behind that a later one could read.
pub proof fn lemma_body_is_ignored(id: u64, first: Payload, second: Payload)
    ensures
        reply_of(Endpoint::List, first) == reply_of(Endpoint::List, second),
        reply_of(Endpoint::Delete { id }, first) == reply_of(Endpoint::Delete { id }, second),
{
}

} // verus!
