use vstd::prelude::*;

use crate::domain::hello::{Hello, HelloView};
use crate::domain::repository::hello::{
    distinct_names, has_name, lemma_has_name_take_succ, name_index, HelloRepositoryTrait,
};
use crate::error::CustomError;

verus! {

/// An in-memory greeting store meeting [`HelloRepositoryTrait`].
///
/// This is the reference persistence gateway: rows live in a vector, in
/// insertion order, and the unique-name constraint is the structural
/// invariant. Exclusive access per operation comes from the receiver mode.
pub struct MemoryHelloRepository {
    rows: Vec<Hello>,
}

impl MemoryHelloRepository {
    /// An empty store.
    pub fn new() -> (r: Self)
        ensures
            r.inv(),
            r.greetings() == Seq::<HelloView>::empty(),
    {
        let r = MemoryHelloRepository { rows: Vec::new() };
        proof {
            assert(r.greetings() =~= Seq::<HelloView>::empty());
        }
        r
    }
}

impl HelloRepositoryTrait for MemoryHelloRepository {
    closed spec fn greetings(&self) -> Seq<HelloView> {
        self.rows@.map_values(|h: Hello| h@)
    }

    closed spec fn inv(&self) -> bool {
        distinct_names(self.greetings())
    }

    proof fn inv_distinct(&self) {
    }

    fn insert(&mut self, hello: Hello) -> (r: Result<String, CustomError>) {
        let ghost s = self.greetings();
        let mut present = false;
        let mut i: usize = 0;
        while i < self.rows.len()
            invariant
                i <= self.rows.len(),
                s == self.greetings(),
                present == has_name(s.take(i as int), hello@.name),
            decreases self.rows.len() - i,
        {
            proof {
                lemma_has_name_take_succ(s, hello@.name, i as int);
            }
            if self.rows[i].name == hello.name {
                present = true;
            }
            i += 1;
        }
        proof {
            s.lemma_take_len();
        }
        if present {
            return Err(CustomError::Db("a greeting with this name already exists".to_owned()));
        }
        let name = hello.name.clone();
        let ghost hv = hello@;
        self.rows.push(hello);
        proof {
            assert(self.greetings() =~= s.push(hv));
            assert forall|i2: int, j2: int|
                0 <= i2 < j2 < self.greetings().len() implies self.greetings()[i2].name
                != self.greetings()[j2].name by {
                if j2 < s.len() {
                    assert(self.greetings()[i2] == s[i2] && self.greetings()[j2] == s[j2]);
                } else {
                    assert(self.greetings()[j2] == hv);
                    assert(self.greetings()[i2] == s[i2]);
                }
            }
        }
        Ok(name)
    }

    fn find(&self, name: String) -> (r: Result<Hello, CustomError>) {
        let ghost s = self.greetings();
        let mut i: usize = 0;
        while i < self.rows.len()
            invariant
                i <= self.rows.len(),
                s == self.greetings(),
                self.inv(),
                !has_name(s.take(i as int), name@),
            decreases self.rows.len() - i,
        {
            proof {
                lemma_has_name_take_succ(s, name@, i as int);
            }
            if self.rows[i].name == name {
                proof {
                    assert(s[i as int].name == name@);
                    assert(has_name(s, name@));
                    let k = name_index(s, name@);
                    assert(0 <= k < s.len() && s[k].name == name@);
                    assert(k == i as int);
                }
                return Ok(self.rows[i].clone());
            }
            i += 1;
        }
        proof {
            s.lemma_take_len();
        }
        Err(CustomError::DbNotFound(name))
    }
}

} // verus!
