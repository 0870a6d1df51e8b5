//! Session-scoped storage core of a local bookkeeping application.
//!
//! The crate decides which store speaks for the current user, what is written
//! to and read from each store, and how nested invoice data is laid out as a
//! document. It performs no input or output itself: every function takes what
//! was read as plain values and returns what is to be written.

pub mod number;
pub mod assoc;
pub mod json;
pub mod error;
pub mod hash;
pub mod path;
pub mod sql;
pub mod session;
pub mod stamp;
pub mod query;
pub mod company;
pub mod invoice;
pub mod codec;
pub mod billing;
pub mod schema;
pub mod account;
pub mod onboarding;
