use todo_store::handler::{
    create_todo, delete_todo, get_todo_by_id, get_todos, update_todo, Body, ContentType,
    ErrorResponse, Response, Status,
};
use todo_store::store::Store;
use todo_store::todo::{CreateTodo, Todo, UpdateTodo};

fn record(id: u32, title: &str, completed: bool) -> Todo {
    Todo { id, title: title.to_string(), completed }
}

fn seeded() -> Store {
    Store::new(vec![record(1, "Learn Rust", false), record(2, "Build an API", true)])
}

fn missing(id: u32, content_type: ContentType) -> Response {
    Response {
        status: Status::NotFound,
        content_type,
        body: Body::Error(ErrorResponse { message: format!("Todo with id {} not found", id) }),
    }
}

fn listed(response: Response) -> Vec<Todo> {
    assert_eq!(response.status, Status::Success);
    assert_eq!(response.content_type, ContentType::JsonUtf8);
    match response.body {
        Body::Todos(mut todos) => {
            todos.sort_by_key(|t| t.id);
            todos
        }
        other => panic!("not a listing: {:?}", other),
    }
}

#[test]
fn status_codes() {
    assert_eq!(Status::Success.code(), 200);
    assert_eq!(Status::Created.code(), 201);
    assert_eq!(Status::NoContent.code(), 204);
    assert_eq!(Status::NotFound.code(), 404);
}

#[test]
fn content_type_headers() {
    assert_eq!(ContentType::Unset.header(), None);
    assert_eq!(ContentType::Json.header(), Some("application/json"));
    assert_eq!(ContentType::JsonUtf8.header(), Some("application/json; charset=utf-8"));
}

#[test]
fn list_answers_200_with_every_record() {
    let store = seeded();
    assert_eq!(
        listed(get_todos(&store)),
        vec![record(1, "Learn Rust", false), record(2, "Build an API", true)]
    );
}

#[test]
fn list_of_an_empty_store_is_empty() {
    let store = Store::new(Vec::new());
    assert_eq!(listed(get_todos(&store)), Vec::new());
}

#[test]
fn create_answers_201_with_the_created_record() {
    let mut store = seeded();
    let response = create_todo(&mut store, CreateTodo { title: "Buy milk".to_string() });
    assert_eq!(
        response,
        Response {
            status: Status::Created,
            content_type: ContentType::JsonUtf8,
            body: Body::Todo(record(3, "Buy milk", false)),
        }
    );
    assert_eq!(store.get(3), Ok(record(3, "Buy milk", false)));
}

#[test]
fn create_accepts_an_empty_title_with_201() {
    let mut store = seeded();
    let response = create_todo(&mut store, CreateTodo { title: String::new() });
    assert_eq!(response.status.code(), 201);
    assert_eq!(response.body, Body::Todo(record(3, "", false)));
}

#[test]
fn get_answers_200_with_the_record() {
    let store = seeded();
    assert_eq!(
        get_todo_by_id(&store, 2),
        Response {
            status: Status::Success,
            content_type: ContentType::JsonUtf8,
            body: Body::Todo(record(2, "Build an API", true)),
        }
    );
}

#[test]
fn get_of_a_missing_id_answers_404_with_the_message() {
    let store = seeded();
    assert_eq!(get_todo_by_id(&store, 42), missing(42, ContentType::Json));
    assert_eq!(get_todo_by_id(&store, 42).status.code(), 404);
}

#[test]
fn update_answers_200_with_the_updated_record() {
    let mut store = seeded();
    let response =
        update_todo(&mut store, 1, UpdateTodo { title: None, completed: Some(true) });
    assert_eq!(
        response,
        Response {
            status: Status::Success,
            content_type: ContentType::JsonUtf8,
            body: Body::Todo(record(1, "Learn Rust", true)),
        }
    );
    assert_eq!(store.get(1), Ok(record(1, "Learn Rust", true)));
}

#[test]
fn update_with_a_title_only_keeps_completed() {
    let mut store = seeded();
    let response = update_todo(
        &mut store,
        2,
        UpdateTodo { title: Some("Ship the API".to_string()), completed: None },
    );
    assert_eq!(response.body, Body::Todo(record(2, "Ship the API", true)));
}

#[test]
fn update_of_a_missing_id_answers_404_and_changes_nothing() {
    let mut store = seeded();
    let response = update_todo(
        &mut store,
        5,
        UpdateTodo { title: Some("x".to_string()), completed: Some(true) },
    );
    assert_eq!(response, missing(5, ContentType::JsonUtf8));
    assert_eq!(
        listed(get_todos(&store)),
        vec![record(1, "Learn Rust", false), record(2, "Build an API", true)]
    );
}

#[test]
fn delete_answers_204_without_a_payload() {
    let mut store = seeded();
    assert_eq!(
        delete_todo(&mut store, 1),
        Response { status: Status::NoContent, content_type: ContentType::Unset, body: Body::Empty }
    );
    assert_eq!(listed(get_todos(&store)), vec![record(2, "Build an API", true)]);
}

#[test]
fn delete_of_a_missing_id_answers_404() {
    let mut store = seeded();
    assert_eq!(delete_todo(&mut store, 3), missing(3, ContentType::Json));
    assert_eq!(delete_todo(&mut store, 3).status.code(), 404);
}

#[test]
fn second_delete_answers_404() {
    let mut store = seeded();
    assert_eq!(delete_todo(&mut store, 2).status.code(), 204);
    assert_eq!(delete_todo(&mut store, 2), missing(2, ContentType::Json));
    assert_eq!(get_todo_by_id(&store, 2), missing(2, ContentType::Json));
}

#[test]
fn handler_scenario_create_get_update_delete_list() {
    let mut store = seeded();
    let created = create_todo(&mut store, CreateTodo { title: "Buy milk".to_string() });
    assert_eq!(created.status.code(), 201);
    assert_eq!(created.body, Body::Todo(record(3, "Buy milk", false)));
    assert_eq!(get_todo_by_id(&store, 3).body, Body::Todo(record(3, "Buy milk", false)));
    let updated = update_todo(&mut store, 3, UpdateTodo { title: None, completed: Some(true) });
    assert_eq!(updated.status.code(), 200);
    assert_eq!(updated.body, Body::Todo(record(3, "Buy milk", true)));
    assert_eq!(delete_todo(&mut store, 3).status.code(), 204);
    assert_eq!(get_todo_by_id(&store, 3), missing(3, ContentType::Json));
    assert_eq!(
        listed(get_todos(&store)),
        vec![record(1, "Learn Rust", false), record(2, "Build an API", true)]
    );
}

#[test]
fn handlers_share_one_counter() {
    let mut store = seeded();
    let first = create_todo(&mut store, CreateTodo { title: "a".to_string() });
    assert_eq!(delete_todo(&mut store, 3).status, Status::NoContent);
    let second = create_todo(&mut store, CreateTodo { title: "b".to_string() });
    assert_eq!(first.body, Body::Todo(record(3, "a", false)));
    assert_eq!(second.body, Body::Todo(record(4, "b", false)));
}
