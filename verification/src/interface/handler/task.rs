use vstd::prelude::*;

use core::marker::PhantomData;

use crate::domain::repository::task::{
    has_task, task_index, task_with_id, tasks_of_user, user_known, TaskRepositoryTrait,
};
use crate::domain::task::{opt_str_view, spec_merge, Task, TaskExt, TaskView};
use crate::domain::timestamp::Timestamp;
use crate::external::{new_uuid, now_utc, odt_in_range, parse_uuid, str_of_uuid, timestamp_in_range,
    uuid_of_str, uuid_to_string};
use crate::interface::message::{
    task_msg_matches, CreateTaskRequest, CreateTaskResponse, GetListTasksRequest,
    GetListTasksResponse, GetTaskRequest, GetTaskResponse, TaskMessage, TaskRequest,
    UpdateTaskRequest, UpdateTaskResponse,
};
use crate::interface::status::{Status, StatusCode};
use crate::usecase::task::TaskUsecaseTrait;

verus! {

/// The task record a creation request gives rise to: the request fields,
/// the server-generated identifier `id`, both timestamps set to the
/// creation instant `now`, an absent description defaulted, and only the
/// seconds of the requested due date kept.
pub open spec fn created_task_view(tr: TaskRequest, id: u128, now: Timestamp) -> TaskView {
    TaskView {
        id,
        title: tr.title@,
        description: match tr.description {
            Some(d) => d@,
            None => "none"@,
        },
        user_id: tr.user_id@,
        due_date: Timestamp { seconds: tr.due_date->Some_0.seconds, nanos: 0u32 },
        priority: tr.priority,
        weight: tr.weight,
        created_at: now,
        updated_at: now,
    }
}

/// The due date an update request asks for: only the seconds are kept.
pub open spec fn decoded_due(o: Option<Timestamp>) -> Option<Timestamp> {
    match o {
        Some(d) => Some(Timestamp { seconds: d.seconds, nanos: 0u32 }),
        None => None,
    }
}

/// Construction of a task request handler over a service-logic layer.
pub trait TaskHandlerTrait<TU, TR>: Sized where
    TU: TaskUsecaseTrait<TR>,
    TR: TaskRepositoryTrait,
 {
    /// The task records reachable through this handler.
    spec fn tasks(&self) -> Seq<TaskView>;

    /// The users the underlying store knows.
    spec fn users(&self) -> Seq<Seq<char>>;

    /// The handler's invariant, inherited from the layers below.
    spec fn inv(&self) -> bool;

    /// Wraps a service-logic layer.
    fn new(usecase: Box<TU>) -> (s: Self)
        requires
            (*usecase).inv(),
        ensures
            s.inv(),
            s.tasks() == (*usecase).tasks(),
            s.users() == (*usecase).users();
}

/// The task request handler: decodes wire requests, validates identifiers
/// and timestamps, invokes the service logic, encodes responses, and maps
/// failures to protocol-level error codes.
pub struct TaskHandler<TU, TR> where
    TU: TaskUsecaseTrait<TR>,
    TR: TaskRepositoryTrait,
 {
    usecase: Box<TU>,
    _phantom: PhantomData<TR>,
}

impl<TU, TR> TaskHandlerTrait<TU, TR> for TaskHandler<TU, TR> where
    TU: TaskUsecaseTrait<TR>,
    TR: TaskRepositoryTrait,
 {
    closed spec fn tasks(&self) -> Seq<TaskView> {
        (*self.usecase).tasks()
    }

    closed spec fn users(&self) -> Seq<Seq<char>> {
        (*self.usecase).users()
    }

    closed spec fn inv(&self) -> bool {
        (*self.usecase).inv()
    }

    fn new(usecase: Box<TU>) -> Self {
        TaskHandler { usecase, _phantom: PhantomData }
    }
}

/// Encodes a task record for the wire.
fn encode_task(t: &Task) -> (m: TaskMessage)
    ensures
        task_msg_matches(m, t@),
{
    TaskMessage {
        id: uuid_to_string(t.id),
        title: t.title.clone(),
        description: Some(t.description.clone()),
        due_date: Some(t.due_date),
        priority: t.priority,
        weight: t.weight,
        created_at: Some(t.created_at),
        updated_at: Some(t.updated_at),
        user_id: t.user_id.clone(),
    }
}

impl<TU, TR> TaskHandler<TU, TR> where
    TU: TaskUsecaseTrait<TR>,
    TR: TaskRepositoryTrait,
 {
    /// Creates a task from the request.
    ///
    /// A request without its nested fields or without a representable due
    /// date is rejected as an invalid argument before any store access.
    /// Otherwise a fresh identifier is drawn and both timestamps set to
    /// the current instant; whatever identifier and instant were drawn,
    /// either exactly that record is appended and its identifier returned
    /// as text, or the store refused — an unknown owner always does — and
    /// the failure surfaces as an internal error.
    pub fn create_task(&mut self, request: CreateTaskRequest) -> (r: Result<
        CreateTaskResponse,
        Status,
    >)
        requires
            old(self).inv(),
        ensures
            final(self).inv(),
            final(self).users() == old(self).users(),
            request.task_request is None ==> {
                &&& r is Err
                &&& r->Err_0.code == StatusCode::InvalidArgument
                &&& final(self).tasks() == old(self).tasks()
            },
            request.task_request is Some && (request.task_request->Some_0.due_date is None
                || !odt_in_range(
                request.task_request->Some_0.due_date->Some_0.seconds as int,
            )) ==> {
                &&& r is Err
                &&& r->Err_0.code == StatusCode::InvalidArgument
                &&& final(self).tasks() == old(self).tasks()
            },
            request.task_request is Some && request.task_request->Some_0.due_date is Some
                && odt_in_range(request.task_request->Some_0.due_date->Some_0.seconds as int) ==> {
                &&& !user_known(old(self).users(), request.task_request->Some_0.user_id@)
                    ==> r is Err
                &&& match r {
                    Ok(resp) => exists|id: u128, now: Timestamp|
                        {
                            &&& user_known(old(self).users(), request.task_request->Some_0.user_id@)
                            &&& !has_task(old(self).tasks(), id)
                            &&& final(self).tasks() == old(self).tasks().push(
                                #[trigger] created_task_view(request.task_request->Some_0, id, now),
                            )
                            &&& resp.task_id@ == str_of_uuid(id)
                        },
                    Err(st) => {
                        &&& st.code == StatusCode::Internal
                        &&& final(self).tasks() == old(self).tasks()
                    },
                }
            },
    {
        let ghost req0 = request;
        let tr = match request.task_request {
            Some(t) => t,
            None => {
                return Err(Status::invalid_argument("Task is required"));
            },
        };
        let ghost tr0 = tr;
        let due = match tr.due_date {
            Some(d) => d,
            None => {
                return Err(Status::invalid_argument("Invalid timestamp"));
            },
        };
        if !timestamp_in_range(due.seconds) {
            return Err(Status::invalid_argument("Invalid timestamp"));
        }
        let id = new_uuid();
        let now = now_utc();
        let description = match tr.description {
            Some(d) => d,
            None => "none".to_owned(),
        };
        let task = Task {
            id,
            title: tr.title,
            description,
            user_id: tr.user_id,
            due_date: Timestamp { seconds: due.seconds, nanos: 0 },
            priority: tr.priority,
            weight: tr.weight,
            created_at: now,
            updated_at: now,
        };
        proof {
            assert(task@ =~= created_task_view(tr0, id, now));
        }
        match self.usecase.insert(task) {
            Ok(returned) => {
                let encoded = uuid_to_string(returned);
                proof {
                    assert({
                        &&& user_known(old(self).users(), req0.task_request->Some_0.user_id@)
                        &&& !has_task(old(self).tasks(), id)
                        &&& final(self).tasks() == old(self).tasks().push(
                            created_task_view(req0.task_request->Some_0, id, now),
                        )
                        &&& encoded@ == str_of_uuid(id)
                    });
                }
                Ok(CreateTaskResponse { task_id: encoded })
            },
            Err(e) => Err(Status::from_error(e)),
        }
    }

    /// Reads the task whose identifier encodes as the requested text.
    ///
    /// A text that is no UUID is rejected as an invalid argument before
    /// any store access; an absent identifier surfaces as an internal
    /// error, mapped from the gateway's not-found failure; on success the
    /// response carries the stored record, encoded for the wire.
    pub fn get_task(&self, request: GetTaskRequest) -> (r: Result<GetTaskResponse, Status>)
        requires
            self.inv(),
        ensures
            uuid_of_str(request.task_id@) is None ==> {
                &&& r is Err
                &&& r->Err_0.code == StatusCode::InvalidArgument
            },
            uuid_of_str(request.task_id@) is Some ==> {
                let id = uuid_of_str(request.task_id@)->Some_0;
                &&& has_task(self.tasks(), id) ==> {
                    &&& r is Ok
                    &&& r->Ok_0.task is Some
                    &&& task_msg_matches(r->Ok_0.task->Some_0, task_with_id(self.tasks(), id))
                }
                &&& !has_task(self.tasks(), id) ==> {
                    &&& r is Err
                    &&& r->Err_0.code == StatusCode::Internal
                }
            },
    {
        let id = match parse_uuid(request.task_id.as_str()) {
            Some(id) => id,
            None => {
                return Err(Status::invalid_argument("Invalid task ID"));
            },
        };
        let found = match self.usecase.find(id) {
            Ok(t) => t,
            Err(e) => {
                return Err(Status::from_error(e));
            },
        };
        Ok(GetTaskResponse { task: Some(encode_task(&found)) })
    }

    /// Lists every task owned by the requested user, encoded for the
    /// wire; a user without tasks yields an empty listing, not an error.
    pub fn get_list_tasks(&self, request: GetListTasksRequest) -> (r: Result<
        GetListTasksResponse,
        Status,
    >)
        requires
            self.inv(),
        ensures
            r is Ok,
            r->Ok_0.tasks@.len() == tasks_of_user(self.tasks(), request.user_id@).len(),
            forall|i: int|
                0 <= i < r->Ok_0.tasks@.len() ==> task_msg_matches(
                    #[trigger] r->Ok_0.tasks@[i],
                    tasks_of_user(self.tasks(), request.user_id@)[i],
                ),
    {
        let ghost uid = request.user_id@;
        let found = match self.usecase.find_from_user_id(request.user_id) {
            Ok(ts) => ts,
            Err(e) => {
                return Err(Status::from_error(e));
            },
        };
        let ghost fv = found@.map_values(|t: Task| t@);
        let mut out: Vec<TaskMessage> = Vec::new();
        let mut i: usize = 0;
        while i < found.len()
            invariant
                i <= found.len(),
                fv == found@.map_values(|t: Task| t@),
                fv == tasks_of_user(self.tasks(), uid),
                out@.len() == i,
                forall|j: int| 0 <= j < i ==> task_msg_matches(#[trigger] out@[j], fv[j]),
            decreases found.len() - i,
        {
            out.push(encode_task(&found[i]));
            proof {
                assert(found@.map_values(|t: Task| t@)[i as int] == found@[i as int]@);
            }
            i += 1;
        }
        Ok(GetListTasksResponse { tasks: out })
    }

    /// Applies a partial update to the task whose identifier encodes as
    /// the requested text.
    ///
    /// A request without its nested field set, or whose identifier is no
    /// UUID, is rejected as an invalid argument before any store access;
    /// an absent task surfaces as an internal error; a present but
    /// unrepresentable due date is rejected as an invalid argument after
    /// the record was fetched but before anything is written. Otherwise
    /// the stored record is merged with the requested fields at the
    /// current instant, the row overwritten with the merged record, and
    /// the identifier returned as text.
    pub fn update_task(&mut self, request: UpdateTaskRequest) -> (r: Result<
        UpdateTaskResponse,
        Status,
    >)
        requires
            old(self).inv(),
        ensures
            final(self).inv(),
            final(self).users() == old(self).users(),
            request.task_update is None ==> {
                &&& r is Err
                &&& r->Err_0.code == StatusCode::InvalidArgument
                &&& final(self).tasks() == old(self).tasks()
            },
            request.task_update is Some && uuid_of_str(request.task_id@) is None ==> {
                &&& r is Err
                &&& r->Err_0.code == StatusCode::InvalidArgument
                &&& final(self).tasks() == old(self).tasks()
            },
            request.task_update is Some && uuid_of_str(request.task_id@) is Some ==> {
                let id = uuid_of_str(request.task_id@)->Some_0;
                let tu = request.task_update->Some_0;
                &&& !has_task(old(self).tasks(), id) ==> {
                    &&& r is Err
                    &&& r->Err_0.code == StatusCode::Internal
                    &&& final(self).tasks() == old(self).tasks()
                }
                &&& has_task(old(self).tasks(), id) && tu.due_date is Some && !odt_in_range(
                    tu.due_date->Some_0.seconds as int,
                ) ==> {
                    &&& r is Err
                    &&& r->Err_0.code == StatusCode::InvalidArgument
                    &&& final(self).tasks() == old(self).tasks()
                }
                &&& has_task(old(self).tasks(), id) && (tu.due_date is None || odt_in_range(
                    tu.due_date->Some_0.seconds as int,
                )) ==> {
                    &&& r is Ok
                    &&& r->Ok_0.task_id@ == str_of_uuid(id)
                    &&& exists|now: Timestamp|
                        final(self).tasks() == old(self).tasks().update(
                            task_index(old(self).tasks(), id),
                            #[trigger] spec_merge(
                                task_with_id(old(self).tasks(), id),
                                opt_str_view(tu.title),
                                opt_str_view(tu.description),
                                opt_str_view(tu.user_id),
                                decoded_due(tu.due_date),
                                tu.priority,
                                tu.weight,
                                now,
                            ),
                        )
                }
            },
    {
        let ghost req0 = request;
        let tu = match request.task_update {
            Some(t) => t,
            None => {
                return Err(Status::invalid_argument("Task is required"));
            },
        };
        let id = match parse_uuid(request.task_id.as_str()) {
            Some(id) => id,
            None => {
                return Err(Status::invalid_argument("Invalid task ID"));
            },
        };
        let existing = match self.usecase.find(id) {
            Ok(t) => t,
            Err(e) => {
                return Err(Status::from_error(e));
            },
        };
        let due: Option<Timestamp> = match tu.due_date {
            Some(d) => {
                if !timestamp_in_range(d.seconds) {
                    return Err(Status::invalid_argument("Invalid timestamp"));
                }
                Some(Timestamp { seconds: d.seconds, nanos: 0 })
            },
            None => None,
        };
        let ghost tu0 = req0.task_update->Some_0;
        let now = now_utc();
        let merged = existing.update(
            tu.title,
            tu.description,
            tu.user_id,
            due,
            tu.priority,
            tu.weight,
            now,
        );
        proof {
            assert(merged@ == spec_merge(
                task_with_id(old(self).tasks(), id),
                opt_str_view(tu0.title),
                opt_str_view(tu0.description),
                opt_str_view(tu0.user_id),
                decoded_due(tu0.due_date),
                tu0.priority,
                tu0.weight,
                now,
            ));
            assert(merged.id == id);
        }
        match self.usecase.update(merged) {
            Ok(returned) => Ok(UpdateTaskResponse { task_id: uuid_to_string(returned) }),
            Err(e) => Err(Status::from_error(e)),
        }
    }
}

} // verus!
