use vstd::prelude::*;

use crate::domain::timestamp::Timestamp;

verus! {

/// A task record owned by a user.
///
/// `id` is the primary key, fixed at creation; `user_id` names the owning
/// user; `created_at` is set once at insert time; `updated_at` is set at
/// insert time and reset on every later mutation.
#[derive(Debug)]
pub struct Task {
    pub id: u128,
    pub title: String,
    pub description: String,
    pub user_id: String,
    pub due_date: Timestamp,
    pub priority: i32,
    pub weight: i32,
    pub created_at: Timestamp,
    pub updated_at: Timestamp,
}

/// The mathematical value of a [`Task`]: string fields as character
/// sequences, everything else as the plain value it already is.
#[verifier::ext_equal]
pub ghost struct TaskView {
    pub id: u128,
    pub title: Seq<char>,
    pub description: Seq<char>,
    pub user_id: Seq<char>,
    pub due_date: Timestamp,
    pub priority: i32,
    pub weight: i32,
    pub created_at: Timestamp,
    pub updated_at: Timestamp,
}

impl View for Task {
    type V = TaskView;

    open spec fn view(&self) -> TaskView {
        TaskView {
            id: self.id,
            title: self.title@,
            description: self.description@,
            user_id: self.user_id@,
            due_date: self.due_date,
            priority: self.priority,
            weight: self.weight,
            created_at: self.created_at,
            updated_at: self.updated_at,
        }
    }
}

impl Clone for Task {
    fn clone(&self) -> (r: Self)
        ensures
            r@ == self@,
    {
        Task {
            id: self.id,
            title: self.title.clone(),
            description: self.description.clone(),
            user_id: self.user_id.clone(),
            due_date: self.due_date,
            priority: self.priority,
            weight: self.weight,
            created_at: self.created_at,
            updated_at: self.updated_at,
        }
    }
}

/// The view of an optional string, for stating merge inputs.
pub open spec fn opt_str_view(o: Option<String>) -> Option<Seq<char>> {
    match o {
        Some(s) => Some(s@),
        None => None,
    }
}

/// The partial-update merge rule.
///
/// Each present field replaces the base value and each absent field leaves
/// it unchanged; `id` and `created_at` are always carried over from `base`;
/// `updated_at` is always set to `now`, the instant of the merge.
pub open spec fn spec_merge(
    base: TaskView,
    title: Option<Seq<char>>,
    description: Option<Seq<char>>,
    user_id: Option<Seq<char>>,
    due_date: Option<Timestamp>,
    priority: Option<i32>,
    weight: Option<i32>,
    now: Timestamp,
) -> TaskView {
    TaskView {
        id: base.id,
        title: if title is Some { title->Some_0 } else { base.title },
        description: if description is Some { description->Some_0 } else { base.description },
        user_id: if user_id is Some { user_id->Some_0 } else { base.user_id },
        due_date: if due_date is Some { due_date->Some_0 } else { base.due_date },
        priority: if priority is Some { priority->Some_0 } else { base.priority },
        weight: if weight is Some { weight->Some_0 } else { base.weight },
        created_at: base.created_at,
        updated_at: now,
    }
}

/// The merge operation on task records.
pub trait TaskExt: View<V = TaskView> + Sized {
    /// Applies a partial update to `self` at instant `now`, following
    /// [`spec_merge`]: present fields replace, absent fields are retained,
    /// `id` and `created_at` are kept, and `updated_at` becomes `now`.
    ///
    /// The operation is pure: it builds the merged record and persists
    /// nothing.
    fn update(
        &self,
        title: Option<String>,
        description: Option<String>,
        user_id: Option<String>,
        due_date: Option<Timestamp>,
        priority: Option<i32>,
        weight: Option<i32>,
        now: Timestamp,
    ) -> (r: Self)
        ensures
            r@ == spec_merge(
                self@,
                opt_str_view(title),
                opt_str_view(description),
                opt_str_view(user_id),
                due_date,
                priority,
                weight,
                now,
            ),
    ;
}

impl TaskExt for Task {
    fn update(
        &self,
        title: Option<String>,
        description: Option<String>,
        user_id: Option<String>,
        due_date: Option<Timestamp>,
        priority: Option<i32>,
        weight: Option<i32>,
        now: Timestamp,
    ) -> (r: Self)
    {
        let r = Task {
            id: self.id,
            title: match title {
                Some(t) => t,
                None => self.title.clone(),
            },
            description: match description {
                Some(d) => d,
                None => self.description.clone(),
            },
            user_id: match user_id {
                Some(u) => u,
                None => self.user_id.clone(),
            },
            due_date: match due_date {
                Some(d) => d,
                None => self.due_date,
            },
            priority: match priority {
                Some(p) => p,
                None => self.priority,
            },
            weight: match weight {
                Some(w) => w,
                None => self.weight,
            },
            created_at: self.created_at,
            updated_at: now,
        };
        r
    }
}

/// Merging with every field absent only touches `updated_at`: the merged
/// record keeps every other field of `t`, and when the merge instant is no
/// earlier than `t.updated_at` — as any honest clock reading taken after
/// the record was written is — the new `updated_at` is no earlier either.
pub proof fn lemma_merge_identity(t: TaskView, now: Timestamp)
    requires
        t.updated_at.le(now),
    ensures
        ({
            let m = spec_merge(t, None, None, None, None, None, None, now);
            &&& m.id == t.id
            &&& m.title == t.title
            &&& m.description == t.description
            &&& m.user_id == t.user_id
            &&& m.due_date == t.due_date
            &&& m.priority == t.priority
            &&& m.weight == t.weight
            &&& m.created_at == t.created_at
            &&& m.updated_at == now
            &&& t.updated_at.le(m.updated_at)
        }),
{
}

/// A present field overrides the base value with exactly the given value,
/// and an absent field retains the base value unchanged; `id` and
/// `created_at` are carried over no matter what is present.
pub proof fn lemma_merge_override(
    t: TaskView,
    title: Option<Seq<char>>,
    description: Option<Seq<char>>,
    user_id: Option<Seq<char>>,
    due_date: Option<Timestamp>,
    priority: Option<i32>,
    weight: Option<i32>,
    now: Timestamp,
)
    ensures
        ({
            let m = spec_merge(t, title, description, user_id, due_date, priority, weight, now);
            &&& m.title == if title is Some { title->Some_0 } else { t.title }
            &&& m.description == if description is Some { description->Some_0 } else { t.description }
            &&& m.user_id == if user_id is Some { user_id->Some_0 } else { t.user_id }
            &&& m.due_date == if due_date is Some { due_date->Some_0 } else { t.due_date }
            &&& m.priority == if priority is Some { priority->Some_0 } else { t.priority }
            &&& m.weight == if weight is Some { weight->Some_0 } else { t.weight }
            &&& m.id == t.id
            &&& m.created_at == t.created_at
            &&& m.updated_at == now
        }),
{
}

} // verus!
