//! Verified core of the dyncall bindings for the Boa JavaScript engine.
//!
//! The JavaScript engine and the foreign-function layer are driven by the
//! host program; this crate holds the decisions they take: how JavaScript
//! values become script values for a C call and back, which arguments of a
//! described C function carry a struct, how a call's arguments are marshalled,
//! how a struct field is rewritten, and when an event poll reports a quit.
pub mod text;
pub mod value;
pub mod signature;
pub mod dispatch;
pub mod fields;
pub mod quit;
pub mod cstr;
