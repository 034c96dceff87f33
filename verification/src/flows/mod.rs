//! Guided flows as pure form state machines. A flow asks one field at a
//! time, then a confirmation, then yields a command for the services.

pub mod answers;
pub mod command;
pub mod dates;
pub mod engine;
pub mod form;
pub mod interpret;
