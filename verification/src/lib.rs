//! Session and concurrency management for a conversational service that fronts one
//! upstream provider: the threads of the process, the rotating pool of credentials,
//! the cache of uploaded artifacts, and the orchestration that ties a request for a
//! response to the right thread, credential and conversational mode.
//!
//! The library is sequential and never blocks. Everything that suspends (the upstream
//! call, file access, the network) stays with the program around it: an operation that
//! needs such work is a step function from the shared state and an event to the next
//! action, and the program performs the action outside any lock and comes back with
//! the outcome. A turn that took long is written back only if its thread still is as the
//! turn read it, so that nothing appended in the meantime is lost.
//!
//! Every function carries a contract over the mathematical view of the state,
//! [`state::StateView`], and is verified against it. What is believed of outside code
//! without proof is gathered in [`ambient`].

pub mod ambient;
pub mod artifacts;
pub mod config;
pub mod error;
pub mod handlers;
pub mod media;
pub mod orchestrator;
pub mod rotator;
pub mod state;
pub mod store;
pub mod text;
pub mod threads;
pub mod types;
pub mod upload;
