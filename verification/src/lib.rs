//! Orchestration of task attempts: which process to run next, how a follow-up
//! resumes or replaces an agent session, and how a setup script hands control
//! back to the operation that needed it.
//!
//! The engine performs no I/O. Each entry point of [`service::ProcessService`]
//! answers with a [`protocol::Step`]: either a request for the environment
//! (load a record, create one, launch a process, register it) or the final
//! outcome. The environment performs the request and hands its response to
//! `resume`, until the step is `Finished`.
pub mod builder;
pub mod calls;
pub mod delegation;
pub mod engine;
pub mod executor;
pub mod ids;
pub mod laws;
pub mod model;
pub mod protocol;
pub mod records;
pub mod service;
pub mod text;
