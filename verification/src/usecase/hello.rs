use vstd::prelude::*;

use crate::domain::hello::{Hello, HelloView};
use crate::domain::repository::hello::{
    distinct_names, greeting_with_name, has_name, HelloRepositoryTrait,
};
use crate::error::CustomError;

verus! {

/// The service-logic contract for greetings: the same operations as the
/// persistence gateway, one for one, so that the gateway is substitutable
/// behind a fixed interface.
pub trait HelloUsecaseTrait<HR: HelloRepositoryTrait>: Sized {
    /// The greetings held by the underlying store, in insertion order.
    spec fn greetings(&self) -> Seq<HelloView>;

    /// The underlying store's invariant.
    spec fn inv(&self) -> bool;

    /// The invariant keeps names unique.
    proof fn inv_distinct(&self)
        requires
            self.inv(),
        ensures
            distinct_names(self.greetings());

    /// Wraps a persistence gateway.
    fn new(repository: Box<HR>) -> (s: Self)
        requires
            (*repository).inv(),
        ensures
            s.inv(),
            s.greetings() == (*repository).greetings();

    /// Delegates to the gateway's insert, adding no rule of its own.
    fn insert(&mut self, hello: Hello) -> (r: Result<String, CustomError>)
        requires
            old(self).inv(),
        ensures
            final(self).inv(),
            !has_name(old(self).greetings(), hello@.name) ==> {
                &&& r is Ok
                &&& r->Ok_0@ == hello@.name
                &&& final(self).greetings() == old(self).greetings().push(hello@)
            },
            has_name(old(self).greetings(), hello@.name) ==> {
                &&& r is Err
                &&& r->Err_0 is Db
                &&& final(self).greetings() == old(self).greetings()
            };

    /// Delegates to the gateway's find, adding no rule of its own.
    fn find(&self, name: String) -> (r: Result<Hello, CustomError>)
        requires
            self.inv(),
        ensures
            has_name(self.greetings(), name@) ==> {
                &&& r is Ok
                &&& r->Ok_0@ == greeting_with_name(self.greetings(), name@)
            },
            !has_name(self.greetings(), name@) ==> {
                &&& r is Err
                &&& r->Err_0 is DbNotFound
            };
}

/// The greeting service logic: a pure delegation layer over a
/// [`HelloRepositoryTrait`] implementation.
pub struct HelloUsecase<HR: HelloRepositoryTrait> {
    repository: Box<HR>,
}

impl<HR: HelloRepositoryTrait> HelloUsecaseTrait<HR> for HelloUsecase<HR> {
    closed spec fn greetings(&self) -> Seq<HelloView> {
        (*self.repository).greetings()
    }

    closed spec fn inv(&self) -> bool {
        (*self.repository).inv()
    }

    proof fn inv_distinct(&self) {
        (*self.repository).inv_distinct();
    }

    fn new(repository: Box<HR>) -> Self {
        HelloUsecase { repository }
    }

    fn insert(&mut self, hello: Hello) -> (r: Result<String, CustomError>) {
        self.repository.insert(hello)
    }

    fn find(&self, name: String) -> (r: Result<Hello, CustomError>) {
        self.repository.find(name)
    }
}

} // verus!
