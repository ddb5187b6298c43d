use vstd::prelude::*;

verus! {

/// A UTC instant: whole seconds since the Unix epoch and the nanoseconds
/// within that second.
#[derive(Debug, Clone, Copy, PartialEq, Eq, Structural)]
pub struct UtcTime {
    pub seconds: i64,
    pub nanos: u32,
}

impl UtcTime {
    pub open spec fn wf(&self) -> bool {
        self.nanos < 1_000_000_000
    }

    /// The instant `seconds` after the epoch, or `None` when `nanos` is not
    /// below one second.
    pub fn new(seconds: i64, nanos: u32) -> (r: Option<UtcTime>)
        ensures
            nanos < 1_000_000_000 <==> r is Some,
            r matches Some(t) ==> t.seconds == seconds && t.nanos == nanos && t.wf(),
    {
        if nanos < 1_000_000_000 {
            Some(UtcTime { seconds, nanos })
        } else {
            None
        }
    }
}

/// A sign-up request: the account to create and the password typed twice.
#[derive(Debug, Clone)]
pub struct SignupRequest {
    pub account: String,
    pub password: String,
    pub confirmed_password: String,
}

#[derive(Debug, Clone)]
pub struct SignupResponse {
    pub account: String,
}

#[derive(Debug, Clone)]
pub struct SigninRequest {
    pub account: String,
    pub password: String,
}

#[derive(Debug, Clone)]
pub struct SigninResponse {
    pub token: String,
}

#[derive(Debug, Clone)]
pub struct CreateTodoRequest {
    pub account: String,
    pub due_date: UtcTime,
    pub content: String,
    pub complete: bool,
}

/// A task record as handed to the caller.
#[derive(Debug, Clone)]
pub struct TodoDto {
    pub id: i64,
    pub account: String,
    pub due_date: UtcTime,
    pub content: String,
    pub complete: bool,
}

/// A stored account: its identifier and the hash of its password.
#[derive(Debug, Clone)]
pub struct MemberEntity {
    pub account: String,
    pub password: String,
}

/// A stored user record, shaped as an account.
#[derive(Debug, Clone)]
pub struct UserEntity {
    pub account: String,
    pub password: String,
}

/// A stored task; `id` is assigned by the store on insert.
#[derive(Debug, Clone)]
pub struct TodoEntity {
    pub id: i64,
    pub account: String,
    pub due_date: UtcTime,
    pub content: String,
    pub complete: bool,
}

impl TodoDto {
    /// The record handed out for a stored task, field for field.
    pub fn from_entity(e: TodoEntity) -> (r: TodoDto)
        ensures
            r.id == e.id,
            r.account == e.account,
            r.due_date == e.due_date,
            r.content == e.content,
            r.complete == e.complete,
    {
        TodoDto {
            id: e.id,
            account: e.account,
            due_date: e.due_date,
            content: e.content,
            complete: e.complete,
        }
    }
}

impl TodoEntity {
    /// The entity to insert for a creation request: every field from the
    /// request, and id 0, which the store replaces.
    pub fn unsaved(dto: &CreateTodoRequest) -> (r: TodoEntity)
        ensures
            r.id == 0,
            r.account == dto.account,
            r.due_date == dto.due_date,
            r.content == dto.content,
            r.complete == dto.complete,
    {
        TodoEntity {
            id: 0,
            account: dto.account.clone(),
            due_date: dto.due_date,
            content: dto.content.clone(),
            complete: dto.complete,
        }
    }
}

} // verus!
