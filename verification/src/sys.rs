//! Plain-value counterparts of the raw system call interface: the result
//! convention, argument words, constants and the signal set.

pub mod result;
pub mod args;
pub mod types;
pub mod call;
pub mod sigset;
pub mod layout;
