//! Orchestration of an asynchronous text-generation job: a size-bounded
//! prompt, the polling schedule, the extraction of the answer from the
//! job's payload, and the retry policy on an exhausted output budget.
//!
//! The library decides; the program around it performs the transport and
//! the waiting, and hands every reply back as a plain value.

pub mod attempt;
pub mod cli;
pub mod error;
pub mod extract;
pub mod json;
pub mod payload;
pub mod poll;
pub mod prompt;
pub mod request;
pub mod session;
pub mod testmode;
pub mod text;
pub mod wire;
