use vstd::prelude::*;

use crate::domain::task::{Task, TaskView};
use crate::error::CustomError;

verus! {

// ---------------------------------------------------------------------------
// The mathematical model of the task store: a sequence of task records, in
// insertion order, whose primary keys are pairwise distinct.
// ---------------------------------------------------------------------------

/// No two records share a primary key.
pub open spec fn distinct_ids(s: Seq<TaskView>) -> bool {
    forall|i: int, j: int| 0 <= i < j < s.len() ==> s[i].id != s[j].id
}

/// Some record carries the primary key `id`.
pub open spec fn has_task(s: Seq<TaskView>, id: u128) -> bool {
    exists|i: int| 0 <= i < s.len() && s[i].id == id
}

/// An index of a record carrying the primary key `id`; under
/// [`distinct_ids`] it is the only one.
pub open spec fn task_index(s: Seq<TaskView>, id: u128) -> int {
    choose|i: int| 0 <= i < s.len() && s[i].id == id
}

/// The record carrying the primary key `id`; meaningful under
/// [`has_task`].
pub open spec fn task_with_id(s: Seq<TaskView>, id: u128) -> TaskView {
    s[task_index(s, id)]
}

/// The ownership predicate for the user `uid`.
pub open spec fn owned_by(uid: Seq<char>) -> spec_fn(TaskView) -> bool {
    |t: TaskView| t.user_id == uid
}

/// All records owned by the user `uid`, in store order.
pub open spec fn tasks_of_user(s: Seq<TaskView>, uid: Seq<char>) -> Seq<TaskView> {
    s.filter(owned_by(uid))
}

/// The user `uid` exists in the store's user table.
pub open spec fn user_known(users: Seq<Seq<char>>, uid: Seq<char>) -> bool {
    exists|i: int| 0 <= i < users.len() && users[i] == uid
}

/// Scanning one record further finds the key exactly when the shorter scan
/// found it or the next record carries it.
pub proof fn lemma_has_task_take_succ(s: Seq<TaskView>, id: u128, i: int)
    requires
        0 <= i < s.len(),
    ensures
        has_task(s.take(i + 1), id) == (has_task(s.take(i), id) || s[i].id == id),
{
    s.lemma_take_succ_push(i);
    let t1 = s.take(i);
    let t2 = s.take(i + 1);
    assert(t2 =~= t1.push(s[i]));
    if has_task(t1, id) {
        let k = choose|k: int| 0 <= k < t1.len() && t1[k].id == id;
        assert(t2[k].id == id);
        assert(has_task(t2, id));
    }
    if s[i].id == id {
        assert(t2[i].id == id);
        assert(has_task(t2, id));
    }
    if has_task(t2, id) && !(s[i].id == id) {
        let k = choose|k: int| 0 <= k < t2.len() && t2[k].id == id;
        assert(k < i);
        assert(t1[k].id == id);
        assert(has_task(t1, id));
    }
}

/// Scanning one user further finds the identifier exactly when the shorter
/// scan found it or the next entry is it.
pub proof fn lemma_user_known_take_succ(users: Seq<Seq<char>>, uid: Seq<char>, i: int)
    requires
        0 <= i < users.len(),
    ensures
        user_known(users.take(i + 1), uid) == (user_known(users.take(i), uid) || users[i] == uid),
{
    users.lemma_take_succ_push(i);
    let t1 = users.take(i);
    let t2 = users.take(i + 1);
    assert(t2 =~= t1.push(users[i]));
    if user_known(t1, uid) {
        let k = choose|k: int| 0 <= k < t1.len() && t1[k] == uid;
        assert(t2[k] == uid);
        assert(user_known(t2, uid));
    }
    if users[i] == uid {
        assert(t2[i] == uid);
        assert(user_known(t2, uid));
    }
    if user_known(t2, uid) && !(users[i] == uid) {
        let k = choose|k: int| 0 <= k < t2.len() && t2[k] == uid;
        assert(k < i);
        assert(t1[k] == uid);
        assert(user_known(t1, uid));
    }
}

// ---------------------------------------------------------------------------
// The persistence-gateway contract for tasks.
// ---------------------------------------------------------------------------

/// The capability set of a task persistence gateway.
///
/// A repository owns a task store and a read-only view of the user table
/// that task ownership refers to. Each operation is atomic with respect to
/// the store: the methods take the receiver exclusively, so at most one
/// operation runs against a given store at a time.
///
/// The returned order of [`find_from_user_id`](Self::find_from_user_id) is
/// an implementation detail; callers should rely only on its contents.
pub trait TaskRepositoryTrait: Sized {
    /// The stored task records, in insertion order.
    spec fn tasks(&self) -> Seq<TaskView>;

    /// The identifiers of the users the store knows.
    spec fn users(&self) -> Seq<Seq<char>>;

    /// The repository's internal invariant.
    spec fn inv(&self) -> bool;

    /// The invariant keeps primary keys unique.
    proof fn inv_distinct(&self)
        requires
            self.inv(),
        ensures
            distinct_ids(self.tasks());

    /// Writes a new row carrying exactly the caller-supplied fields and
    /// returns the acknowledged primary key. The caller must already have
    /// set `id`, `created_at` and `updated_at`; nothing is assigned here.
    /// Fails with a store error when a constraint is violated: an unknown
    /// owner or an already-present primary key.
    fn insert(&mut self, task: Task) -> (r: Result<u128, CustomError>)
        requires
            old(self).inv(),
        ensures
            final(self).inv(),
            final(self).users() == old(self).users(),
            user_known(old(self).users(), task@.user_id) && !has_task(
                old(self).tasks(),
                task.id,
            ) ==> {
                &&& r is Ok
                &&& r->Ok_0 == task.id
                &&& final(self).tasks() == old(self).tasks().push(task@)
            },
            !(user_known(old(self).users(), task@.user_id) && !has_task(
                old(self).tasks(),
                task.id,
            )) ==> {
                &&& r is Err
                &&& r->Err_0 is Db
                &&& final(self).tasks() == old(self).tasks()
            };

    /// Fetches the one row whose primary key equals `id`, or fails with
    /// `DbNotFound` when no row matches — never with a silently empty
    /// success.
    fn find(&self, id: u128) -> (r: Result<Task, CustomError>)
        requires
            self.inv(),
        ensures
            has_task(self.tasks(), id) ==> {
                &&& r is Ok
                &&& r->Ok_0@ == task_with_id(self.tasks(), id)
            },
            !has_task(self.tasks(), id) ==> {
                &&& r is Err
                &&& r->Err_0 is DbNotFound
            };

    /// Returns every row owned by `user_id`; a user without tasks yields an
    /// empty sequence, not an error.
    fn find_from_user_id(&self, user_id: String) -> (r: Result<Vec<Task>, CustomError>)
        requires
            self.inv(),
        ensures
            r is Ok,
            r->Ok_0@.map_values(|t: Task| t@) == tasks_of_user(self.tasks(), user_id@);

    /// Fully overwrites the row whose primary key equals `task.id` with the
    /// supplied field values — not a partial patch: any merging must have
    /// happened before this call. Fails with `DbNotFound` when no such row
    /// exists.
    fn update(&mut self, task: Task) -> (r: Result<u128, CustomError>)
        requires
            old(self).inv(),
        ensures
            final(self).inv(),
            final(self).users() == old(self).users(),
            has_task(old(self).tasks(), task.id) ==> {
                &&& r is Ok
                &&& r->Ok_0 == task.id
                &&& final(self).tasks() == old(self).tasks().update(
                    task_index(old(self).tasks(), task.id),
                    task@,
                )
            },
            !has_task(old(self).tasks(), task.id) ==> {
                &&& r is Err
                &&& r->Err_0 is DbNotFound
                &&& final(self).tasks() == old(self).tasks()
            };
}

// ---------------------------------------------------------------------------
// Laws of the store model.
// ---------------------------------------------------------------------------

/// Round trip: a record inserted into a store that did not hold its key is
/// found again, unchanged in every field, when looked up by that key.
pub proof fn lemma_insert_find_round_trip(s: Seq<TaskView>, t: TaskView)
    requires
        !has_task(s, t.id),
    ensures
        has_task(s.push(t), t.id),
        task_with_id(s.push(t), t.id) == t,
{
    let s2 = s.push(t);
    assert(s2[s.len() as int] == t);
    assert(has_task(s2, t.id));
    let k = task_index(s2, t.id);
    assert(0 <= k < s2.len() && s2[k].id == t.id);
    if k < s.len() {
        assert(s[k] == s2[k]);
        assert(has_task(s, t.id));
    }
}

/// Stability: inserting a record does not disturb any record already
/// stored — in particular `created_at` and `updated_at` of an existing
/// record change only through an explicit update of that record.
pub proof fn lemma_insert_preserves_existing(s: Seq<TaskView>, t: TaskView, id: u128)
    requires
        distinct_ids(s),
        !has_task(s, t.id),
        has_task(s, id),
    ensures
        has_task(s.push(t), id),
        task_with_id(s.push(t), id) == task_with_id(s, id),
{
    let s2 = s.push(t);
    let k = task_index(s, id);
    assert(0 <= k < s.len() && s[k].id == id);
    assert(s2[k] == s[k]);
    assert(has_task(s2, id));
    let k2 = task_index(s2, id);
    assert(0 <= k2 < s2.len() && s2[k2].id == id);
    if k2 == s.len() {
        assert(s2[k2] == t);
        assert(has_task(s, t.id));
    }
    assert(k2 == k);
}

/// An update overwrites exactly its target: afterwards the key maps to the
/// new record, every other record is untouched, and the keys stay unique.
pub proof fn lemma_update_targets_only(s: Seq<TaskView>, t: TaskView, id: u128)
    requires
        distinct_ids(s),
        has_task(s, t.id),
    ensures
        distinct_ids(s.update(task_index(s, t.id), t)),
        has_task(s.update(task_index(s, t.id), t), t.id),
        task_with_id(s.update(task_index(s, t.id), t), t.id) == t,
        id != t.id ==> has_task(s.update(task_index(s, t.id), t), id) == has_task(s, id),
        id != t.id && has_task(s, id) ==> task_with_id(s.update(task_index(s, t.id), t), id)
            == task_with_id(s, id),
{
    let k = task_index(s, t.id);
    assert(0 <= k < s.len() && s[k].id == t.id);
    let s2 = s.update(k, t);
    assert(forall|i: int| 0 <= i < s2.len() && i != k ==> s2[i] == s[i]);
    assert(s2[k] == t);
    assert(has_task(s2, t.id));
    let k2 = task_index(s2, t.id);
    assert(0 <= k2 < s2.len() && s2[k2].id == t.id);
    assert(k2 == k);
    if id != t.id {
        if has_task(s, id) {
            let j = task_index(s, id);
            assert(0 <= j < s.len() && s[j].id == id);
            assert(j != k);
            assert(s2[j] == s[j]);
            assert(has_task(s2, id));
            let j2 = task_index(s2, id);
            assert(0 <= j2 < s2.len() && s2[j2].id == id);
            assert(j2 != k);
            assert(s2[j2] == s[j2]);
            assert(j2 == j);
        }
        if has_task(s2, id) {
            let j2 = task_index(s2, id);
            assert(0 <= j2 < s2.len() && s2[j2].id == id);
            assert(j2 != k);
            assert(s2[j2] == s[j2]);
            assert(has_task(s, id));
        }
    }
}

/// List-by-owner correctness: a user's listing contains exactly that
/// user's tasks; a record inserted for another user never appears in it;
/// a user who owns nothing gets the empty listing.
pub proof fn lemma_list_by_owner(s: Seq<TaskView>, t: TaskView, u1: Seq<char>)
    requires
        t.user_id != u1,
    ensures
        forall|i: int|
            0 <= i < tasks_of_user(s, u1).len() ==> (#[trigger] tasks_of_user(s, u1)[i]).user_id
                == u1,
        forall|i: int|
            0 <= i < s.len() && (#[trigger] s[i]).user_id == u1 ==> tasks_of_user(s, u1).contains(
                s[i],
            ),
        tasks_of_user(s.push(t), u1) == tasks_of_user(s, u1),
        (forall|i: int| 0 <= i < s.len() ==> (#[trigger] s[i]).user_id != u1) ==> tasks_of_user(
            s,
            u1,
        ).len() == 0,
{
    broadcast use vstd::seq_lib::group_seq_properties;

    let p = owned_by(u1);
    s.lemma_filter_push(t, p);
    assert(!p(t));
    assert forall|i: int| 0 <= i < s.len() && (#[trigger] s[i]).user_id == u1 implies tasks_of_user(
        s,
        u1,
    ).contains(s[i]) by {
        s.lemma_filter_contains(p, i);
    }
    if forall|i: int| 0 <= i < s.len() ==> (#[trigger] s[i]).user_id != u1 {
        if tasks_of_user(s, u1).len() > 0 {
            s.lemma_filter_pred(p, 0);
            assert(s.filter(p).contains(s.filter(p)[0]));
            let x = s.filter(p)[0];
            s.lemma_filter_contains_rev(p, x);
            assert(s.contains(x));
        }
    }
}

} // verus!
