//! A late-bound automation bridge, written so that every decision it takes is
//! verified and every call into the host is left to the program that drives it.
//!
//! The library works on plain values. A host object is an opaque handle of a
//! type `H` that the driving program chooses; a value that crosses the boundary
//! is a [`variant::RSVariant`]. An operation that needs the host is split
//! into the requests it makes and the answers it is given: each request is a
//! value that says what to ask, and each answer is handed back to it to obtain
//! the next request or the final result.
//!
//! - [`variant`]: the generic value and its typed constructors and accessors.
//! - [`idispatchw`]: a bridge to one object, and a call on it from the look-up
//!   of its member to its result.
//! - [`com::com_module`]: a connection, from its opening to its teardown, and
//!   the bridges that it keeps under a key.
//! - [`com_errors`]: the failures of all of these.

pub mod com;
pub mod com_errors;
pub mod idispatchw;
pub mod variant;
