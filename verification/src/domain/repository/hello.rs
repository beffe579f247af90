use vstd::prelude::*;

use crate::domain::hello::{Hello, HelloView};
use crate::error::CustomError;

verus! {

// ---------------------------------------------------------------------------
// The mathematical model of the greeting store: a sequence of greeting
// records, in insertion order, whose names are pairwise distinct.
// ---------------------------------------------------------------------------

/// No two greetings share a name.
pub open spec fn distinct_names(s: Seq<HelloView>) -> bool {
    forall|i: int, j: int| 0 <= i < j < s.len() ==> s[i].name != s[j].name
}

/// Some greeting carries the name `name`.
pub open spec fn has_name(s: Seq<HelloView>, name: Seq<char>) -> bool {
    exists|i: int| 0 <= i < s.len() && s[i].name == name
}

/// An index of a greeting carrying the name `name`; under
/// [`distinct_names`] it is the only one.
pub open spec fn name_index(s: Seq<HelloView>, name: Seq<char>) -> int {
    choose|i: int| 0 <= i < s.len() && s[i].name == name
}

/// The greeting carrying the name `name`; meaningful under [`has_name`].
pub open spec fn greeting_with_name(s: Seq<HelloView>, name: Seq<char>) -> HelloView {
    s[name_index(s, name)]
}

/// Scanning one greeting further finds the name exactly when the shorter
/// scan found it or the next greeting carries it.
pub proof fn lemma_has_name_take_succ(s: Seq<HelloView>, name: Seq<char>, i: int)
    requires
        0 <= i < s.len(),
    ensures
        has_name(s.take(i + 1), name) == (has_name(s.take(i), name) || s[i].name == name),
{
    s.lemma_take_succ_push(i);
    let t1 = s.take(i);
    let t2 = s.take(i + 1);
    assert(t2 =~= t1.push(s[i]));
    if has_name(t1, name) {
        let k = choose|k: int| 0 <= k < t1.len() && t1[k].name == name;
        assert(t2[k].name == name);
        assert(has_name(t2, name));
    }
    if s[i].name == name {
        assert(t2[i].name == name);
        assert(has_name(t2, name));
    }
    if has_name(t2, name) && !(s[i].name == name) {
        let k = choose|k: int| 0 <= k < t2.len() && t2[k].name == name;
        assert(k < i);
        assert(t1[k].name == name);
        assert(has_name(t1, name));
    }
}

// ---------------------------------------------------------------------------
// The persistence-gateway contract for greetings.
// ---------------------------------------------------------------------------

/// The capability set of a greeting persistence gateway.
///
/// Greetings are keyed by their unique name and are never updated or
/// deleted: the store only grows. Each operation takes the receiver
/// exclusively, so at most one operation runs against a given store at a
/// time.
pub trait HelloRepositoryTrait: Sized {
    /// The stored greetings, in insertion order.
    spec fn greetings(&self) -> Seq<HelloView>;

    /// The repository's internal invariant.
    spec fn inv(&self) -> bool;

    /// The invariant keeps names unique.
    proof fn inv_distinct(&self)
        requires
            self.inv(),
        ensures
            distinct_names(self.greetings());

    /// Writes a new greeting row and returns the acknowledged key, the
    /// name. Fails with a store error when the unique-name constraint is
    /// violated.
    fn insert(&mut self, hello: Hello) -> (r: Result<String, CustomError>)
        requires
            old(self).inv(),
        ensures
            final(self).inv(),
            !has_name(old(self).greetings(), hello@.name) ==> {
                &&& r is Ok
                &&& r->Ok_0@ == hello@.name
                &&& final(self).greetings() == old(self).greetings().push(hello@)
            },
            has_name(old(self).greetings(), hello@.name) ==> {
                &&& r is Err
                &&& r->Err_0 is Db
                &&& final(self).greetings() == old(self).greetings()
            };

    /// Fetches the one greeting whose name equals `name`, or fails with
    /// `DbNotFound` when no row matches — never with a silently empty
    /// success.
    fn find(&self, name: String) -> (r: Result<Hello, CustomError>)
        requires
            self.inv(),
        ensures
            has_name(self.greetings(), name@) ==> {
                &&& r is Ok
                &&& r->Ok_0@ == greeting_with_name(self.greetings(), name@)
            },
            !has_name(self.greetings(), name@) ==> {
                &&& r is Err
                &&& r->Err_0 is DbNotFound
            };
}

} // verus!
