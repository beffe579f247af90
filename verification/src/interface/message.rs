use vstd::prelude::*;

use crate::domain::hello::Hello;
use crate::domain::task::TaskView;
use crate::domain::timestamp::Timestamp;
use crate::external::str_of_uuid;

verus! {

// ---------------------------------------------------------------------------
// The wire shapes the handlers decode and encode. They mirror the remote
// procedure interface: identifiers travel as strings, timestamps as
// (seconds, nanoseconds) pairs, and optional fields as options.
// ---------------------------------------------------------------------------

/// Request to create a greeting; the nested greeting is required.
#[derive(Debug)]
pub struct CreateHelloRequest {
    pub hello: Option<Hello>,
}

/// Response to a greeting creation; carries nothing.
#[derive(Debug)]
pub struct CreateHelloResponse {}

/// Request to read the greeting filed under `name`.
#[derive(Debug)]
pub struct ReadHelloRequest {
    pub name: String,
}

/// Response to a greeting read.
#[derive(Debug)]
pub struct ReadHelloResponse {
    pub hello: Option<Hello>,
}

/// The task fields a creation request carries. `description` defaults
/// when absent; `due_date` is required and only its seconds are kept.
#[derive(Debug)]
pub struct TaskRequest {
    pub title: String,
    pub description: Option<String>,
    pub due_date: Option<Timestamp>,
    pub priority: i32,
    pub weight: i32,
    pub user_id: String,
}

/// Request to create a task; the nested fields are required.
#[derive(Debug)]
pub struct CreateTaskRequest {
    pub task_request: Option<TaskRequest>,
}

/// Response to a task creation: the server-generated identifier, encoded
/// as its canonical hyphenated text.
#[derive(Debug)]
pub struct CreateTaskResponse {
    pub task_id: String,
}

/// Request to read the task whose identifier encodes as `task_id`.
#[derive(Debug)]
pub struct GetTaskRequest {
    pub task_id: String,
}

/// A task record as it travels on the wire.
#[derive(Debug)]
pub struct TaskMessage {
    pub id: String,
    pub title: String,
    pub description: Option<String>,
    pub due_date: Option<Timestamp>,
    pub priority: i32,
    pub weight: i32,
    pub created_at: Option<Timestamp>,
    pub updated_at: Option<Timestamp>,
    pub user_id: String,
}

/// Response to a task read.
#[derive(Debug)]
pub struct GetTaskResponse {
    pub task: Option<TaskMessage>,
}

/// Request to list every task owned by `user_id`.
#[derive(Debug)]
pub struct GetListTasksRequest {
    pub user_id: String,
}

/// Response to a task listing.
#[derive(Debug)]
pub struct GetListTasksResponse {
    pub tasks: Vec<TaskMessage>,
}

/// The all-optional subset of task fields an update request may carry.
#[derive(Debug)]
pub struct TaskUpdate {
    pub title: Option<String>,
    pub description: Option<String>,
    pub due_date: Option<Timestamp>,
    pub priority: Option<i32>,
    pub weight: Option<i32>,
    pub user_id: Option<String>,
}

/// Request to partially update the task whose identifier encodes as
/// `task_id`; the nested field set is required.
#[derive(Debug)]
pub struct UpdateTaskRequest {
    pub task_id: String,
    pub task_update: Option<TaskUpdate>,
}

/// Response to a task update: the identifier of the updated task, encoded
/// as its canonical hyphenated text.
#[derive(Debug)]
pub struct UpdateTaskResponse {
    pub task_id: String,
}

/// The wire message `m` faithfully encodes the task record `t`: the
/// identifier as its canonical text, each timestamp as a present
/// (seconds, nanoseconds) pair, and every other field verbatim.
pub open spec fn task_msg_matches(m: TaskMessage, t: TaskView) -> bool {
    &&& m.id@ == str_of_uuid(t.id)
    &&& m.title@ == t.title
    &&& m.description is Some
    &&& m.description->Some_0@ == t.description
    &&& m.due_date == Some(t.due_date)
    &&& m.priority == t.priority
    &&& m.weight == t.weight
    &&& m.created_at == Some(t.created_at)
    &&& m.updated_at == Some(t.updated_at)
    &&& m.user_id@ == t.user_id
}

} // verus!
