//! Todo data and the shape constraints on its request bodies. As with
//! accounts, instants are epoch seconds and storage is a collaborator.

use vstd::prelude::*;
use crate::errors::AppError;

verus! {

/// A stored todo row.
#[derive(Debug, Clone, PartialEq, Eq)]
pub struct Todo {
    pub id: i64,
    pub user_id: i64,
    pub title: String,
    pub descriptions: Option<String>,
    pub is_done: bool,
    pub finished_at: Option<i64>,
    pub created_at: i64,
    pub updated_at: i64,
}

/// What of a todo a client sees — no owner id.
#[derive(Debug, Clone, PartialEq, Eq)]
pub struct TodoResponse {
    pub id: i64,
    pub title: String,
    pub descriptions: Option<String>,
    pub is_done: bool,
    pub finished_at: Option<i64>,
    pub created_at: i64,
    pub updated_at: i64,
}

impl From<Todo> for TodoResponse {
    fn from(todo: Todo) -> (r: TodoResponse) {
        TodoResponse {
            id: todo.id,
            title: todo.title,
            descriptions: todo.descriptions,
            is_done: todo.is_done,
            finished_at: todo.finished_at,
            created_at: todo.created_at,
            updated_at: todo.updated_at,
        }
    }
}

impl vstd::std_specs::convert::FromSpecImpl<Todo> for TodoResponse {
    open spec fn obeys_from_spec() -> bool {
        true
    }

    open spec fn from_spec(todo: Todo) -> Self {
        TodoResponse {
            id: todo.id,
            title: todo.title,
            descriptions: todo.descriptions,
            is_done: todo.is_done,
            finished_at: todo.finished_at,
            created_at: todo.created_at,
            updated_at: todo.updated_at,
        }
    }
}

/// The length constraint on a title.
pub open spec fn spec_title_ok(title: Seq<char>) -> bool {
    5 <= title.len() <= 256
}

/// The length constraint on an optional description.
pub open spec fn spec_descriptions_ok(descriptions: Option<String>) -> bool {
    match descriptions {
        Option::Some(d) => 5 <= d@.len() <= 1021,
        Option::None => true,
    }
}

/// Decides the title constraint.
fn title_ok(title: &str) -> (r: bool)
    ensures
        r == spec_title_ok(title@),
{
    let n = title.unicode_len();
    5 <= n && n <= 256
}

/// Decides the description constraint.
fn descriptions_ok(descriptions: &Option<String>) -> (r: bool)
    ensures
        r == spec_descriptions_ok(*descriptions),
{
    match descriptions {
        Option::Some(d) => {
            let n = d.as_str().unicode_len();
            5 <= n && n <= 1021
        },
        Option::None => true,
    }
}

/// A request to create a todo.
#[derive(Debug, Clone, PartialEq, Eq)]
pub struct CreateTodoRequest {
    pub title: String,
    pub descriptions: Option<String>,
}

/// A request to update a todo; the flag and finish instant must both be
/// supplied so an update never silently clears them.
#[derive(Debug, Clone, PartialEq, Eq)]
pub struct UpdateTodoRequest {
    pub id: i64,
    pub title: String,
    pub descriptions: Option<String>,
    pub is_done: Option<bool>,
    pub finished_at: Option<i64>,
}

/// A request to delete a todo; the target is named in the path, so the
/// body carries nothing.
#[derive(Debug, Clone, PartialEq, Eq)]
pub struct DeleteTodoRequest {}

/// The field-level detail for an ill-formed create request: the first
/// failing field in declaration order.
pub open spec fn spec_create_todo_message(
    title: Seq<char>,
    descriptions: Option<String>,
) -> Seq<char> {
    if !spec_title_ok(title) {
        "Title must be 5 to 256 characters"@
    } else if !spec_descriptions_ok(descriptions) {
        "Descriptions must be 5 to 1021 characters"@
    } else {
        Seq::empty()
    }
}

impl CreateTodoRequest {
    pub open spec fn spec_valid(&self) -> bool {
        spec_title_ok(self.title@) && spec_descriptions_ok(self.descriptions)
    }

    /// Checks the shape constraints on creation.
    pub fn validate(&self) -> (r: Result<(), AppError>)
        ensures
            r is Ok <==> self.spec_valid(),
            r matches Err(e) ==> (e matches AppError::ValidationError(m) && m@
                == spec_create_todo_message(self.title@, self.descriptions)),
    {
        if !title_ok(self.title.as_str()) {
            return Err(AppError::ValidationError("Title must be 5 to 256 characters".to_owned()));
        }
        if !descriptions_ok(&self.descriptions) {
            return Err(
                AppError::ValidationError("Descriptions must be 5 to 1021 characters".to_owned()),
            );
        }
        Ok(())
    }
}

/// The field-level detail for an ill-formed update request: the first
/// failing field in declaration order.
pub open spec fn spec_update_todo_message(req: UpdateTodoRequest) -> Seq<char> {
    if req.id < 0 {
        "Todo id required"@
    } else if !spec_title_ok(req.title@) {
        "Title must be 5 to 256 characters"@
    } else if !spec_descriptions_ok(req.descriptions) {
        "Descriptions must be 5 to 1021 characters"@
    } else if req.is_done is None {
        "is_done required"@
    } else if req.finished_at is None {
        "finished_at required"@
    } else {
        Seq::empty()
    }
}

impl UpdateTodoRequest {
    pub open spec fn spec_valid(&self) -> bool {
        self.id >= 0 && spec_title_ok(self.title@) && spec_descriptions_ok(self.descriptions)
            && self.is_done is Some && self.finished_at is Some
    }

    /// Checks the shape constraints on update.
    pub fn validate(&self) -> (r: Result<(), AppError>)
        ensures
            r is Ok <==> self.spec_valid(),
            r matches Err(e) ==> (e matches AppError::ValidationError(m) && m@
                == spec_update_todo_message(*self)),
    {
        if self.id < 0 {
            return Err(AppError::ValidationError("Todo id required".to_owned()));
        }
        if !title_ok(self.title.as_str()) {
            return Err(AppError::ValidationError("Title must be 5 to 256 characters".to_owned()));
        }
        if !descriptions_ok(&self.descriptions) {
            return Err(
                AppError::ValidationError("Descriptions must be 5 to 1021 characters".to_owned()),
            );
        }
        if self.is_done.is_none() {
            return Err(AppError::ValidationError("is_done required".to_owned()));
        }
        if self.finished_at.is_none() {
            return Err(AppError::ValidationError("finished_at required".to_owned()));
        }
        Ok(())
    }
}

impl DeleteTodoRequest {
    /// A delete body has nothing to check.
    pub fn validate(&self) -> (r: Result<(), AppError>)
        ensures
            r is Ok,
    {
        Ok(())
    }
}

} // verus!
