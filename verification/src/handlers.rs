//! The four operations of the service. None of them reads or writes any
//! state: a todo that was created is not listed afterwards, and an update or
//! a delete answers for every id alike.

use crate::model::{views_of, text_or, CreateTodo, Todo, TodoView, UpdateTodo};
use vstd::prelude::*;

verus! {

/// The id that every created todo gets.
pub const CREATED_ID: u64 = 42;

/// The title of the first listed todo, and of an answer that was given none.
pub open spec fn dishes_title() -> Seq<char> {
    "Do the dishes"@
}

/// The body of the first listed todo, and of an answer that was given none.
pub open spec fn dishes_body() -> Seq<char> {
    "Make sure to do the dishes before bed"@
}

/// The title of the second listed todo.
pub open spec fn dog_title() -> Seq<char> {
    "Walk the dog"@
}

/// The body of the second listed todo.
pub open spec fn dog_body() -> Seq<char> {
    "Take Fido for a walk around the block"@
}

/// The list that `todos` answers with.
pub open spec fn listed() -> Seq<TodoView> {
    seq![
        TodoView { id: 1, title: dishes_title(), body: dishes_body() },
        TodoView { id: 2, title: dog_title(), body: dog_body() },
    ]
}

/// The todo that `create_todo` answers with.
pub open spec fn created(title: Seq<char>, body: Seq<char>) -> TodoView {
    TodoView { id: CREATED_ID, title, body }
}

/// The todo that `update_todo` answers with.
pub open spec fn updated(id: u64, title: Option<String>, body: Option<String>) -> TodoView {
    TodoView { id, title: text_or(title, dishes_title()), body: text_or(body, dishes_body()) }
}

/// The todo that `delete_todo` answers with.
pub open spec fn deleted(id: u64) -> TodoView {
    TodoView { id, title: dishes_title(), body: dishes_body() }
}

/// Lists the todos: always the same two, in the same order.
pub fn todos() -> (list: Vec<Todo>)
    ensures
        views_of(list@) == listed(),
{
    let first = Todo {
        id: 1,
        title: "Do the dishes".to_string(),
        body: "Make sure to do the dishes before bed".to_string(),
    };
    let second = Todo {
        id: 2,
        title: "Walk the dog".to_string(),
        body: "Take Fido for a walk around the block".to_string(),
    };
    let list = vec![first, second];
    assert(views_of(list@) =~= listed());
    list
}

/// Creates a todo from what the client sent. The id is `CREATED_ID` whatever
/// was sent, and both texts are taken over as they are.
pub fn create_todo(input: CreateTodo) -> (todo: Todo)
    ensures
        todo@ == created(input.title@, input.body@),
{
    Todo { id: CREATED_ID, title: input.title, body: input.body }
}

/// Updates the todo `id`: the answer holds each text that was sent, and the
/// text of the first listed todo in place of one that was not.
pub fn update_todo(id: u64, input: UpdateTodo) -> (todo: Todo)
    ensures
        todo@ == updated(id, input.title, input.body),
{
    let title = match input.title {
        Some(text) => text,
        None => "Do the dishes".to_string(),
    };
    let body = match input.body {
        Some(text) => text,
        None => "Make sure to do the dishes before bed".to_string(),
    };
    Todo { id, title, body }
}

/// Deletes the todo `id`: the answer holds the id and the texts of the first
/// listed todo.
pub fn delete_todo(id: u64) -> (todo: Todo)
    ensures
        todo@ == deleted(id),
{
    Todo {
        id,
        title: "Do the dishes".to_string(),
        body: "Make sure to do the dishes before bed".to_string(),
    }
}

} // verus!
