//! Bounded, concurrent ingestion of a batch of documents into a remote
//! search index: configuration, the scheduling state machine, per-record
//! outcomes and the run report.
//!
//! The library decides and sends nothing itself. A caller loads the
//! records, hands them to a [`scheduler::IngestionScheduler`] and then runs
//! a loop: it carries out each [`model::Action`] and reports what happened
//! as a [`model::Event`]. What holds of every such run is proved in
//! [`laws`].

pub mod config;
pub mod connection;
pub mod fatal;
pub mod job;
pub mod laws;
pub mod model;
pub mod naming;
pub mod outcome;
pub mod record;
pub mod report;
pub mod scheduler;
