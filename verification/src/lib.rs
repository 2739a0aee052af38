//! Keeps a machine awake until a deadline that callers may extend, shorten or replace.

pub mod client;
pub mod clock;
pub mod daemon;
pub mod deadline;
pub mod error;
pub mod helper;
pub mod inhibitor;
pub mod protocol;
pub mod time;
