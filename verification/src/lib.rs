//! Coordination layer for loading machine-learning models into a worker.
//!
//! The heart of the crate is the load coordinator
//! ([`model_loader::ModelLoader`]) that deduplicates redundant load requests,
//! keeps at most one load in flight at a time, and reports the outcome of
//! every attempt; under it sits the command channel
//! ([`channel::CommandChannel`]) that carries load commands to the single
//! worker, with a one-shot reply path for each command.  The guarantees of
//! the protocol as a whole — mutual exclusion, idempotent reloads, fast
//! rejection, failure handling — are stated and proved in [`protocol`].
//!
//! Around the core, [`runner`] holds the decisions of the launcher that
//! discovers and installs the WasmEdge runtime, and [`landing`] the rules of
//! the landing screen's search input.

pub mod channel;
pub mod landing;
pub mod model_loader;
pub mod protocol;
pub mod runner;
