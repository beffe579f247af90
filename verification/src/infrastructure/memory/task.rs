use vstd::prelude::*;

use crate::domain::repository::task::{
    distinct_ids, has_task, lemma_has_task_take_succ, lemma_user_known_take_succ, owned_by,
    task_index, tasks_of_user, user_known, TaskRepositoryTrait,
};
use crate::domain::task::{Task, TaskView};
use crate::error::CustomError;
use crate::external::uuid_to_string;

verus! {

/// An in-memory task store meeting [`TaskRepositoryTrait`].
///
/// This is the reference persistence gateway: task rows live in a vector,
/// in insertion order, next to the user table that ownership refers to.
/// The unique-primary-key constraint is the structural invariant, and the
/// foreign-key constraint is enforced on insert, as the store would.
/// Exclusive access per operation comes from the receiver mode.
pub struct MemoryTaskRepository {
    rows: Vec<Task>,
    user_ids: Vec<String>,
}

impl MemoryTaskRepository {
    /// An empty store that knows no users.
    pub fn new() -> (r: Self)
        ensures
            r.inv(),
            r.tasks() == Seq::<TaskView>::empty(),
            r.users() == Seq::<Seq<char>>::empty(),
    {
        let r = MemoryTaskRepository { rows: Vec::new(), user_ids: Vec::new() };
        proof {
            assert(r.tasks() =~= Seq::<TaskView>::empty());
            assert(r.users() =~= Seq::<Seq<char>>::empty());
        }
        r
    }

    /// Registers a user so that tasks may reference it. Users are created
    /// outside this core; the store only needs to know their identifiers
    /// to enforce the ownership constraint.
    pub fn add_user(&mut self, user_id: String)
        requires
            old(self).inv(),
        ensures
            final(self).inv(),
            final(self).tasks() == old(self).tasks(),
            final(self).users() == old(self).users().push(user_id@),
    {
        let ghost uv = user_id@;
        let ghost us = self.users();
        self.user_ids.push(user_id);
        proof {
            assert(self.users() =~= us.push(uv));
            assert(self.tasks() =~= old(self).tasks());
        }
    }
}

impl TaskRepositoryTrait for MemoryTaskRepository {
    closed spec fn tasks(&self) -> Seq<TaskView> {
        self.rows@.map_values(|t: Task| t@)
    }

    closed spec fn users(&self) -> Seq<Seq<char>> {
        self.user_ids@.map_values(|s: String| s@)
    }

    closed spec fn inv(&self) -> bool {
        distinct_ids(self.tasks())
    }

    proof fn inv_distinct(&self) {
    }

    fn insert(&mut self, task: Task) -> (r: Result<u128, CustomError>) {
        let ghost us = self.users();
        let mut known = false;
        let mut i: usize = 0;
        while i < self.user_ids.len()
            invariant
                i <= self.user_ids.len(),
                us == self.users(),
                known == user_known(us.take(i as int), task@.user_id),
            decreases self.user_ids.len() - i,
        {
            proof {
                lemma_user_known_take_succ(us, task@.user_id, i as int);
            }
            if self.user_ids[i] == task.user_id {
                known = true;
            }
            i += 1;
        }
        proof {
            us.lemma_take_len();
        }
        if !known {
            return Err(CustomError::Db("task references an unknown user".to_owned()));
        }

        let ghost s = self.tasks();
        let mut present = false;
        let mut j: usize = 0;
        while j < self.rows.len()
            invariant
                j <= self.rows.len(),
                s == self.tasks(),
                present == has_task(s.take(j as int), task.id),
            decreases self.rows.len() - j,
        {
            proof {
                lemma_has_task_take_succ(s, task.id, j as int);
            }
            if self.rows[j].id == task.id {
                present = true;
            }
            j += 1;
        }
        proof {
            s.lemma_take_len();
        }
        if present {
            return Err(CustomError::Db("a task with this id already exists".to_owned()));
        }

        let id = task.id;
        let ghost tv = task@;
        self.rows.push(task);
        proof {
            assert(self.tasks() =~= s.push(tv));
            assert(self.users() =~= us);
            assert forall|i2: int, j2: int|
                0 <= i2 < j2 < self.tasks().len() implies self.tasks()[i2].id
                != self.tasks()[j2].id by {
                if j2 < s.len() {
                    assert(self.tasks()[i2] == s[i2] && self.tasks()[j2] == s[j2]);
                } else {
                    assert(self.tasks()[j2] == tv);
                    assert(self.tasks()[i2] == s[i2]);
                }
            }
        }
        Ok(id)
    }

    fn find(&self, id: u128) -> (r: Result<Task, CustomError>) {
        let ghost s = self.tasks();
        let mut i: usize = 0;
        while i < self.rows.len()
            invariant
                i <= self.rows.len(),
                s == self.tasks(),
                self.inv(),
                !has_task(s.take(i as int), id),
            decreases self.rows.len() - i,
        {
            proof {
                lemma_has_task_take_succ(s, id, i as int);
            }
            if self.rows[i].id == id {
                proof {
                    assert(s[i as int].id == id);
                    assert(has_task(s, id));
                    let k = task_index(s, id);
                    assert(0 <= k < s.len() && s[k].id == id);
                    assert(k == i as int);
                }
                return Ok(self.rows[i].clone());
            }
            i += 1;
        }
        proof {
            s.lemma_take_len();
        }
        Err(CustomError::DbNotFound(uuid_to_string(id)))
    }

    fn find_from_user_id(&self, user_id: String) -> (r: Result<Vec<Task>, CustomError>) {
        let ghost s = self.tasks();
        let ghost p = owned_by(user_id@);
        let mut out: Vec<Task> = Vec::new();
        let mut i: usize = 0;
        proof {
            assert(out@.map_values(|t: Task| t@) =~= s.take(0).filter(p));
        }
        while i < self.rows.len()
            invariant
                i <= self.rows.len(),
                s == self.tasks(),
                p == owned_by(user_id@),
                out@.map_values(|t: Task| t@) == s.take(i as int).filter(p),
            decreases self.rows.len() - i,
        {
            proof {
                s.lemma_take_succ_push(i as int);
                s.take(i as int).lemma_filter_push(s[i as int], p);
            }
            if self.rows[i].user_id == user_id {
                let ghost outv = out@.map_values(|t: Task| t@);
                out.push(self.rows[i].clone());
                proof {
                    assert(p(s[i as int]));
                    assert(out@.map_values(|t: Task| t@) =~= outv.push(s[i as int]));
                }
            } else {
                proof {
                    assert(!p(s[i as int]));
                }
            }
            i += 1;
        }
        proof {
            s.lemma_take_len();
            assert(out@.map_values(|t: Task| t@) == tasks_of_user(s, user_id@));
        }
        Ok(out)
    }

    fn update(&mut self, task: Task) -> (r: Result<u128, CustomError>) {
        let ghost s = self.tasks();
        let mut found = false;
        let mut idx: usize = 0;
        let mut i: usize = 0;
        while i < self.rows.len()
            invariant
                i <= self.rows.len(),
                s == self.tasks(),
                old(self) == self,
                !found ==> !has_task(s.take(i as int), task.id),
                found ==> idx < self.rows.len() && s[idx as int].id == task.id,
            decreases self.rows.len() - i,
        {
            proof {
                lemma_has_task_take_succ(s, task.id, i as int);
            }
            if self.rows[i].id == task.id {
                found = true;
                idx = i;
            }
            i += 1;
        }
        if !found {
            proof {
                s.lemma_take_len();
            }
            return Err(CustomError::DbNotFound(uuid_to_string(task.id)));
        }

        let id = task.id;
        let ghost tv = task@;
        proof {
            assert(has_task(s, task.id));
            let k = task_index(s, task.id);
            assert(0 <= k < s.len() && s[k].id == task.id);
            assert(k == idx as int);
        }
        self.rows[idx] = task;
        proof {
            assert(self.tasks() =~= s.update(idx as int, tv));
            assert(self.users() =~= old(self).users());
            let s2 = self.tasks();
            assert forall|i2: int, j2: int|
                0 <= i2 < j2 < s2.len() implies s2[i2].id != s2[j2].id by {
                assert(s2[i2].id == s[i2].id && s2[j2].id == s[j2].id);
            }
        }
        Ok(id)
    }
}

} // verus!
