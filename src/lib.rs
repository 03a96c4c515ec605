//! Synchronisation core for a notes working copy kept in step with one remote.
//!
//! The version-control engine itself (object storage, transport, diffing) lives
//! outside this crate. What lives here is the decision logic: automatic conflict
//! resolution, the merge engine, the sync and pull orchestrators and the state
//! sanitizer, each written as a step function from state and engine event to
//! next state and engine action, so that every decision is verified.

pub mod conflict;
pub mod credential;
pub mod error;
pub mod handle;
pub mod history;
pub mod merge;
pub mod mime_types;
pub mod pull;
pub mod refs;
pub mod remote;
pub mod sanitize;
pub mod setup;
pub mod sync;
pub mod text;
