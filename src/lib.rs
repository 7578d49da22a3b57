//! Control of a motorized standing desk over its serial protocol: the frames
//! of its commands, the decoding of its height reports, and the steps of an
//! operation, with the input and output left to the caller.

pub mod command;
pub mod error;
pub mod height;
pub mod payload;
pub mod scanner;
pub mod service;
pub mod session;
