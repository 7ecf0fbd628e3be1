use todo_api::{respond, CreateTodo, DecodeError, Endpoint, Method, Payload, Reply, Todo, UpdateTodo};

fn payload(title: Option<&str>, body: Option<&str>) -> Payload {
    Payload { title: title.map(str::to_string), body: body.map(str::to_string) }
}

fn todo(id: u64, title: &str, body: &str) -> Todo {
    Todo { id, title: title.to_string(), body: body.to_string() }
}

const DISHES_TITLE: &str = "Do the dishes";
const DISHES_BODY: &str = "Make sure to do the dishes before bed";

#[test]
fn create_without_title_is_a_client_error() {
    let answer = respond(Endpoint::Create, payload(None, Some("B")));
    assert_eq!(answer, Err(DecodeError::MissingTitle));
    assert_eq!(DecodeError::MissingTitle.status(), 422);
    assert!((400..500).contains(&DecodeError::MissingTitle.status()));
}

#[test]
fn create_without_body_is_a_client_error() {
    let answer = respond(Endpoint::Create, payload(Some("T"), None));
    assert_eq!(answer, Err(DecodeError::MissingBody));
    assert_eq!(DecodeError::MissingBody.status(), 422);
}

#[test]
fn create_without_either_reports_the_title_first() {
    assert_eq!(respond(Endpoint::Create, Payload::empty()), Err(DecodeError::MissingTitle));
    assert_eq!(CreateTodo::from_payload(Payload::empty()), Err(DecodeError::MissingTitle));
}

#[test]
fn create_with_both_fields_answers_with_id_42() {
    let answer = respond(Endpoint::Create, payload(Some("T"), Some("B")));
    assert_eq!(answer, Ok(Reply::Item(todo(42, "T", "B"))));
}

#[test]
fn payload_converts_to_each_input_shape() {
    assert_eq!(
        CreateTodo::from_payload(payload(Some("T"), Some("B"))),
        Ok(CreateTodo { title: "T".to_string(), body: "B".to_string() })
    );
    assert_eq!(
        UpdateTodo::from_payload(payload(None, Some("B"))),
        UpdateTodo { title: None, body: Some("B".to_string()) }
    );
    assert_eq!(Payload::empty(), Payload { title: None, body: None });
}

#[test]
fn list_answers_with_the_two_todos_whatever_the_body() {
    let expected = Ok(Reply::Listing(vec![
        todo(1, DISHES_TITLE, DISHES_BODY),
        todo(2, "Walk the dog", "Take Fido for a walk around the block"),
    ]));
    assert_eq!(respond(Endpoint::List, Payload::empty()), expected);
    assert_eq!(respond(Endpoint::List, payload(Some("T"), Some("B"))), expected);
}

#[test]
fn update_answers_with_sent_fields_or_fallbacks() {
    let cases = [
        (payload(Some("T"), Some("B")), todo(9, "T", "B")),
        (payload(Some("T"), None), todo(9, "T", DISHES_BODY)),
        (payload(None, Some("B")), todo(9, DISHES_TITLE, "B")),
        (payload(None, None), todo(9, DISHES_TITLE, DISHES_BODY)),
    ];
    for (sent, expected) in cases {
        assert_eq!(respond(Endpoint::Update { id: 9 }, sent), Ok(Reply::Item(expected)));
    }
}

#[test]
fn delete_answers_with_fallbacks_whatever_the_body() {
    let expected = Ok(Reply::Item(todo(9, DISHES_TITLE, DISHES_BODY)));
    assert_eq!(respond(Endpoint::Delete { id: 9 }, Payload::empty()), expected);
    assert_eq!(respond(Endpoint::Delete { id: 9 }, payload(Some("T"), Some("B"))), expected);
}

#[test]
fn request_line_and_body_give_the_answer() {
    let endpoint = todo_api::resolve(Method::Put, b"/v1/todos/15").unwrap();
    let answer = respond(endpoint, payload(None, Some("B")));
    assert_eq!(answer, Ok(Reply::Item(todo(15, DISHES_TITLE, "B"))));
}

#[test]
fn interleaved_requests_do_not_interfere() {
    let mut answers: Vec<(usize, Result<Reply, DecodeError>)> = Vec::new();
    for i in (0..100).rev() {
        let sent = payload(Some(&format!("title {i}")), Some(&format!("body {i}")));
        answers.push((i, respond(Endpoint::Create, sent)));
        let _ = respond(Endpoint::Update { id: 1 }, payload(Some("other"), None));
        let _ = respond(Endpoint::Delete { id: 2 }, Payload::empty());
    }
    assert_eq!(answers.len(), 100);
    for (i, answer) in answers {
        let expected = todo(42, &format!("title {i}"), &format!("body {i}"));
        assert_eq!(answer, Ok(Reply::Item(expected)));
    }
}
