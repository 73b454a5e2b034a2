//! A broker for one supervised worker process.
//!
//! The broker starts the worker on first use, sends it one request line at a
//! time, waits for the matching response line, and forgets the worker when it
//! dies so that the next request starts a fresh one. The broker itself performs
//! no I/O: it is a state machine that tells its driver what to do next and is
//! told what came of it.

pub mod branding;
pub mod broker;
pub mod codec;
pub mod error;
pub mod event;
pub mod history;
pub mod logo;
