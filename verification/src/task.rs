//! Tasks: what a task holds, what makes one acceptable, and how the task
//! service answers what the datastore found.

use crate::auth::uuid_fresh;
use crate::error::{reports_fault, APIErrorResponse, APIErrorView, APIResult, BAD_REQUEST};
use vstd::prelude::*;

verus! {

/// The requested task does not exist.
pub const NOT_FOUND: u16 = 404;

/// A task. `id` is the 128-bit value of its UUID, `date` its due time in
/// seconds since the epoch.
#[derive(Debug, Clone)]
pub struct Task {
    pub id: u128,
    pub name: String,
    pub description: String,
    pub priority: String,
    pub date: i64,
}

/// What a client sends to create a task.
#[derive(Debug, Clone)]
pub struct TaskPayload {
    pub name: String,
    pub description: String,
    pub priority: String,
    pub date: i64,
}

/// What is wrong with the texts of a task, if anything: none of them may be
/// empty. The first empty one is the one reported.
pub open spec fn task_fault(name: Seq<char>, description: Seq<char>, priority: Seq<char>) -> Option<
    Seq<char>,
> {
    if name.len() == 0 {
        Some("Name cannot be empty"@)
    } else if description.len() == 0 {
        Some("Description cannot be empty"@)
    } else if priority.len() == 0 {
        Some("Priority cannot be empty"@)
    } else {
        None
    }
}

/// The result is `Ok` where `holds`, else the error answer with the given
/// status and message.
pub open spec fn passes_or_fails<V>(r: APIResult<V>, holds: bool, status: u16, message: Seq<char>) -> bool {
    match r {
        Ok(_) => holds,
        Err(e) => !holds && e@ == (APIErrorView { status: status as int, message }),
    }
}

fn check_texts(name: &str, description: &str, priority: &str) -> (r: Option<APIErrorResponse>)
    ensures
        reports_fault(r, task_fault(name@, description@, priority@)),
{
    if name.is_empty() {
        return Some(APIErrorResponse::bad_request("Name cannot be empty"));
    }
    if description.is_empty() {
        return Some(APIErrorResponse::bad_request("Description cannot be empty"));
    }
    if priority.is_empty() {
        return Some(APIErrorResponse::bad_request("Priority cannot be empty"));
    }
    None
}

impl Task {
    /// A task of the given values.
    pub fn new(id: u128, name: String, description: String, priority: String, date: i64) -> (r:
        Self)
        ensures
            r.id == id,
            r.name == name,
            r.description == description,
            r.priority == priority,
            r.date == date,
    {
        Self { id, name, description, priority, date }
    }

    /// The task that a payload asks for, under the identifier `id`.
    pub fn from_payload(id: u128, payload: &TaskPayload) -> (r: Self)
        ensures
            r.id == id,
            r.name@ == payload.name@,
            r.description@ == payload.description@,
            r.priority@ == payload.priority@,
            r.date == payload.date,
    {
        Self {
            id,
            name: payload.name.clone(),
            description: payload.description.clone(),
            priority: payload.priority.clone(),
            date: payload.date,
        }
    }

    /// The task that a payload asks for, under a fresh random identifier.
    pub fn new_from_task_payload(payload: &TaskPayload) -> (r: Self)
        ensures
            r.name@ == payload.name@,
            r.description@ == payload.description@,
            r.priority@ == payload.priority@,
            r.date == payload.date,
    {
        Self::from_payload(uuid_fresh(), payload)
    }

    /// Checks that the name, the description and the priority are not empty.
    pub fn validate(&self) -> (r: Option<APIErrorResponse>)
        ensures
            reports_fault(r, task_fault(self.name@, self.description@, self.priority@)),
    {
        check_texts(self.name.as_str(), self.description.as_str(), self.priority.as_str())
    }
}

impl TaskPayload {
    /// A payload of the given values.
    pub fn new(name: String, description: String, priority: String, date: i64) -> (r: Self)
        ensures
            r.name == name,
            r.description == description,
            r.priority == priority,
            r.date == date,
    {
        Self { name, description, priority, date }
    }

    /// Checks that the name, the description and the priority are not empty.
    pub fn validate(&self) -> (r: Option<APIErrorResponse>)
        ensures
            reports_fault(r, task_fault(self.name@, self.description@, self.priority@)),
    {
        check_texts(self.name.as_str(), self.description.as_str(), self.priority.as_str())
    }
}

/// What the task service answers once the datastore has said whether the
/// priority is one it knows: an unknown priority is a 400.
pub fn require_known_priority(known: bool) -> (r: APIResult<()>)
    ensures
        passes_or_fails(r, known, BAD_REQUEST, "Invalid priority"@),
{
    if known {
        Ok(())
    } else {
        Err(APIErrorResponse::new(BAD_REQUEST, "Invalid priority".to_owned()))
    }
}

/// What the task service answers once the datastore has said whether the
/// task to update or delete was there: a missing task is a 404.
pub fn require_found(found: bool) -> (r: APIResult<()>)
    ensures
        passes_or_fails(r, found, NOT_FOUND, "Task not found"@),
{
    if found {
        Ok(())
    } else {
        Err(APIErrorResponse::new(NOT_FOUND, "Task not found".to_owned()))
    }
}

} // verus!
