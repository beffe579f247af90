use vstd::prelude::*;

use crate::domain::repository::task::{
    distinct_ids, has_task, task_index, task_with_id, tasks_of_user, user_known,
    TaskRepositoryTrait,
};
use crate::domain::task::{Task, TaskView};
use crate::error::CustomError;

verus! {

/// The service-logic contract for tasks: the same operations as the
/// persistence gateway, one for one, so that the gateway is substitutable
/// behind a fixed interface.
pub trait TaskUsecaseTrait<TR: TaskRepositoryTrait>: Sized {
    /// The task records held by the underlying store, in insertion order.
    spec fn tasks(&self) -> Seq<TaskView>;

    /// The users the underlying store knows.
    spec fn users(&self) -> Seq<Seq<char>>;

    /// The underlying store's invariant.
    spec fn inv(&self) -> bool;

    /// The invariant keeps primary keys unique.
    proof fn inv_distinct(&self)
        requires
            self.inv(),
        ensures
            distinct_ids(self.tasks());

    /// Wraps a persistence gateway.
    fn new(repository: Box<TR>) -> (s: Self)
        requires
            (*repository).inv(),
        ensures
            s.inv(),
            s.tasks() == (*repository).tasks(),
            s.users() == (*repository).users();

    /// Delegates to the gateway's insert, adding no rule of its own.
    fn insert(&mut self, task: Task) -> (r: Result<u128, CustomError>)
        requires
            old(self).inv(),
        ensures
            final(self).inv(),
            final(self).users() == old(self).users(),
            user_known(old(self).users(), task@.user_id) && !has_task(
                old(self).tasks(),
                task.id,
            ) ==> {
                &&& r is Ok
                &&& r->Ok_0 == task.id
                &&& final(self).tasks() == old(self).tasks().push(task@)
            },
            !(user_known(old(self).users(), task@.user_id) && !has_task(
                old(self).tasks(),
                task.id,
            )) ==> {
                &&& r is Err
                &&& r->Err_0 is Db
                &&& final(self).tasks() == old(self).tasks()
            };

    /// Delegates to the gateway's find, adding no rule of its own.
    fn find(&self, id: u128) -> (r: Result<Task, CustomError>)
        requires
            self.inv(),
        ensures
            has_task(self.tasks(), id) ==> {
                &&& r is Ok
                &&& r->Ok_0@ == task_with_id(self.tasks(), id)
            },
            !has_task(self.tasks(), id) ==> {
                &&& r is Err
                &&& r->Err_0 is DbNotFound
            };

    /// Delegates to the gateway's find-by-owner, adding no rule of its
    /// own.
    fn find_from_user_id(&self, user_id: String) -> (r: Result<Vec<Task>, CustomError>)
        requires
            self.inv(),
        ensures
            r is Ok,
            r->Ok_0@.map_values(|t: Task| t@) == tasks_of_user(self.tasks(), user_id@);

    /// Delegates to the gateway's update, adding no rule of its own.
    fn update(&mut self, task: Task) -> (r: Result<u128, CustomError>)
        requires
            old(self).inv(),
        ensures
            final(self).inv(),
            final(self).users() == old(self).users(),
            has_task(old(self).tasks(), task.id) ==> {
                &&& r is Ok
                &&& r->Ok_0 == task.id
                &&& final(self).tasks() == old(self).tasks().update(
                    task_index(old(self).tasks(), task.id),
                    task@,
                )
            },
            !has_task(old(self).tasks(), task.id) ==> {
                &&& r is Err
                &&& r->Err_0 is DbNotFound
                &&& final(self).tasks() == old(self).tasks()
            };
}

/// The task service logic: a pure delegation layer over a
/// [`TaskRepositoryTrait`] implementation.
pub struct TaskUsecase<TR: TaskRepositoryTrait> {
    repository: Box<TR>,
}

impl<TR: TaskRepositoryTrait> TaskUsecaseTrait<TR> for TaskUsecase<TR> {
    closed spec fn tasks(&self) -> Seq<TaskView> {
        (*self.repository).tasks()
    }

    closed spec fn users(&self) -> Seq<Seq<char>> {
        (*self.repository).users()
    }

    closed spec fn inv(&self) -> bool {
        (*self.repository).inv()
    }

    proof fn inv_distinct(&self) {
        (*self.repository).inv_distinct();
    }

    fn new(repository: Box<TR>) -> Self {
        TaskUsecase { repository }
    }

    fn insert(&mut self, task: Task) -> (r: Result<u128, CustomError>) {
        self.repository.insert(task)
    }

    fn find(&self, id: u128) -> (r: Result<Task, CustomError>) {
        self.repository.find(id)
    }

    fn find_from_user_id(&self, user_id: String) -> (r: Result<Vec<Task>, CustomError>) {
        self.repository.find_from_user_id(user_id)
    }

    fn update(&mut self, task: Task) -> (r: Result<u128, CustomError>) {
        self.repository.update(task)
    }
}

} // verus!
