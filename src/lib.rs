//! Blocking filesystem operations bridged into a readiness-polling event loop.
//!
//! A worker thread runs the blocking operations one at a time, in submission
//! order; a reactor thread polls a readiness signal that the worker arms after
//! each result, drains every result that is ready, and hands each one to its
//! continuation. This crate holds the protocol, the submitting handle, and the
//! decisions of both loops; the threads and the poll are driven by their caller.
pub mod protocol;
pub mod worker;
pub mod reactor;
pub mod handle;
pub mod laws;
