//! Feeds a finite byte stream into an anonymous buffer in memory, seals
//! the buffer, and hands it to another program as its standard input.
//!
//! The library decides; it calls nothing. Each step names the call that
//! is to be made into the operating system, and takes in what the call
//! reported. The seals, the order of the steps, the choice among the
//! ways to copy and the count of the bytes are kept here.

pub mod error;
pub mod handoff;
pub mod model;
pub mod options;
pub mod pipeline;
pub mod report;
pub mod seal;
pub mod sys;
pub mod transfer;
