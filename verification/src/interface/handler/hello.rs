use vstd::prelude::*;

use core::marker::PhantomData;

use crate::domain::hello::{Hello, HelloView};
use crate::domain::repository::hello::{greeting_with_name, has_name, HelloRepositoryTrait};
use crate::interface::message::{
    CreateHelloRequest, CreateHelloResponse, ReadHelloRequest, ReadHelloResponse,
};
use crate::interface::status::{Status, StatusCode};
use crate::usecase::hello::HelloUsecaseTrait;

verus! {

/// Construction of a greeting request handler over a service-logic layer.
pub trait HelloHandlerTrait<HU, HR>: Sized where
    HU: HelloUsecaseTrait<HR>,
    HR: HelloRepositoryTrait,
 {
    /// The greetings reachable through this handler.
    spec fn greetings(&self) -> Seq<HelloView>;

    /// The handler's invariant, inherited from the layers below.
    spec fn inv(&self) -> bool;

    /// Wraps a service-logic layer.
    fn new(usecase: Box<HU>) -> (s: Self)
        requires
            (*usecase).inv(),
        ensures
            s.inv(),
            s.greetings() == (*usecase).greetings();
}

/// The greeting request handler: decodes wire requests, invokes the
/// service logic, encodes responses, and maps failures to protocol-level
/// error codes.
pub struct HelloHandler<HU, HR> where
    HU: HelloUsecaseTrait<HR>,
    HR: HelloRepositoryTrait,
 {
    usecase: Box<HU>,
    _phantom: PhantomData<HR>,
}

impl<HU, HR> HelloHandlerTrait<HU, HR> for HelloHandler<HU, HR> where
    HU: HelloUsecaseTrait<HR>,
    HR: HelloRepositoryTrait,
 {
    closed spec fn greetings(&self) -> Seq<HelloView> {
        (*self.usecase).greetings()
    }

    closed spec fn inv(&self) -> bool {
        (*self.usecase).inv()
    }

    fn new(usecase: Box<HU>) -> Self {
        HelloHandler { usecase, _phantom: PhantomData }
    }
}

impl<HU, HR> HelloHandler<HU, HR> where
    HU: HelloUsecaseTrait<HR>,
    HR: HelloRepositoryTrait,
 {
    /// Creates the greeting carried by the request.
    ///
    /// A request without its nested greeting is rejected as an invalid
    /// argument before any store access; a store failure — the name is
    /// already taken — surfaces as an internal error. On success the
    /// greeting is appended to the store and an empty response returned.
    pub fn create_hello(&mut self, request: CreateHelloRequest) -> (r: Result<
        CreateHelloResponse,
        Status,
    >)
        requires
            old(self).inv(),
        ensures
            final(self).inv(),
            match request.hello {
                None => {
                    &&& r is Err
                    &&& r->Err_0.code == StatusCode::InvalidArgument
                    &&& final(self).greetings() == old(self).greetings()
                },
                Some(h) => if !has_name(old(self).greetings(), h@.name) {
                    &&& r is Ok
                    &&& final(self).greetings() == old(self).greetings().push(h@)
                } else {
                    &&& r is Err
                    &&& r->Err_0.code == StatusCode::Internal
                    &&& final(self).greetings() == old(self).greetings()
                },
            },
    {
        let hello = match request.hello {
            Some(h) => h,
            None => {
                return Err(Status::invalid_argument("Hello is required"));
            },
        };
        match self.usecase.insert(hello) {
            Ok(_) => Ok(CreateHelloResponse {  }),
            Err(e) => Err(Status::from_error(e)),
        }
    }

    /// Reads the greeting filed under the requested name.
    ///
    /// An absent name surfaces as an internal error, mapped from the
    /// gateway's not-found failure; on success the response carries the
    /// stored greeting.
    pub fn read_hello(&self, request: ReadHelloRequest) -> (r: Result<ReadHelloResponse, Status>)
        requires
            self.inv(),
        ensures
            has_name(self.greetings(), request.name@) ==> {
                &&& r is Ok
                &&& r->Ok_0.hello is Some
                &&& r->Ok_0.hello->Some_0@ == greeting_with_name(self.greetings(), request.name@)
            },
            !has_name(self.greetings(), request.name@) ==> {
                &&& r is Err
                &&& r->Err_0.code == StatusCode::Internal
            },
    {
        let found = match self.usecase.find(request.name) {
            Ok(h) => h,
            Err(e) => {
                return Err(Status::from_error(e));
            },
        };
        Ok(ReadHelloResponse { hello: Some(Hello { name: found.name, message: found.message }) })
    }
}

} // verus!
