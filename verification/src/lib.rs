//! Record-management core for a small greeting/task service.
//!
//! The library is organised like the service it backs:
//! - `domain` holds the record types (`Hello`, `Task`), the partial-update
//!   merge rule, and the repository contracts that a persistence layer must
//!   meet;
//! - `infrastructure` holds a verified in-memory persistence gateway that
//!   meets those contracts;
//! - `usecase` holds the service-logic layer, a verified pass-through from
//!   handlers to a repository;
//! - `interface` holds the request handlers: decoding of wire-shaped
//!   requests, validation, invocation of the service logic, and encoding of
//!   responses and protocol-level error codes;
//! - `external` holds the small trusted bindings to the `uuid` and `time`
//!   crates that the handlers rely on.

pub mod domain;
pub mod error;
pub mod external;
pub mod infrastructure;
pub mod interface;
pub mod usecase;
