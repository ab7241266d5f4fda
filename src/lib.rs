//! Request validation, and the dispatcher that puts every RPC handler
//! behind it, with the greeting and farewell handlers of the demo service.

pub mod constraint;
pub mod status;
pub mod greeter;

pub use greeter::{MyFarewell, MyGreeter};
pub use status::validate;
