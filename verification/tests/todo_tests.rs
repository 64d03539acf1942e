use todo_auth::errors::AppError;
use todo_auth::todo::{
    CreateTodoRequest, DeleteTodoRequest, Todo, TodoResponse, UpdateTodoRequest,
};

fn create_request() -> CreateTodoRequest {
    CreateTodoRequest {
        title: "Water the plants".to_string(),
        descriptions: Some("Both pots on the balcony".to_string()),
    }
}

fn update_request() -> UpdateTodoRequest {
    UpdateTodoRequest {
        id: 3,
        title: "Water the plants".to_string(),
        descriptions: None,
        is_done: Some(true),
        finished_at: Some(1_700_000_000),
    }
}

#[test]
fn well_formed_create_request_passes() {
    assert!(create_request().validate().is_ok());
    let no_description = CreateTodoRequest { title: "Water the plants".to_string(), descriptions: None };
    assert!(no_description.validate().is_ok());
}

#[test]
fn short_title_is_rejected() {
    let mut request = create_request();
    request.title = "Hi".to_string();
    assert_eq!(
        request.validate().unwrap_err(),
        AppError::ValidationError("Title must be 5 to 256 characters".to_string())
    );
}

#[test]
fn short_description_is_rejected() {
    let mut request = create_request();
    request.descriptions = Some("tiny".to_string());
    assert_eq!(
        request.validate().unwrap_err(),
        AppError::ValidationError("Descriptions must be 5 to 1021 characters".to_string())
    );
}

#[test]
fn update_request_requires_flag_and_finish_instant() {
    assert!(update_request().validate().is_ok());
    let mut request = update_request();
    request.is_done = None;
    assert_eq!(
        request.validate().unwrap_err(),
        AppError::ValidationError("is_done required".to_string())
    );
    let mut request = update_request();
    request.finished_at = None;
    assert_eq!(
        request.validate().unwrap_err(),
        AppError::ValidationError("finished_at required".to_string())
    );
}

#[test]
fn update_request_rejects_negative_id() {
    let mut request = update_request();
    request.id = -1;
    assert_eq!(
        request.validate().unwrap_err(),
        AppError::ValidationError("Todo id required".to_string())
    );
}

#[test]
fn delete_request_has_nothing_to_reject() {
    assert!(DeleteTodoRequest {}.validate().is_ok());
}

#[test]
fn todo_response_drops_only_the_owner() {
    let todo = Todo {
        id: 3,
        user_id: 42,
        title: "Water the plants".to_string(),
        descriptions: None,
        is_done: false,
        finished_at: None,
        created_at: 1_700_000_000,
        updated_at: 1_700_000_100,
    };
    let response = TodoResponse::from(todo);
    assert_eq!(response.id, 3);
    assert_eq!(response.title, "Water the plants");
    assert_eq!(response.is_done, false);
    assert_eq!(response.created_at, 1_700_000_000);
    assert_eq!(response.updated_at, 1_700_000_100);
}
