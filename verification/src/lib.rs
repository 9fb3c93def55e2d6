//! Client-side engine for a job-queue protocol: it sizes activation
//! requests to the capacity of a bounded dispatch pool, tracks every leased
//! job from activation to its single report, and drives the polling
//! lifecycle. All remote calls are performed by the embedding application;
//! this crate decides what to call and when.

pub mod client;
pub mod config;
pub mod error;
pub mod foreign;
pub mod guarantees;
pub mod job;
pub mod payload;
pub mod poller;
pub mod pool;
pub mod pool_state;
pub mod protocol;
pub mod reporter;
pub mod requests;
pub mod scheduler;
pub mod scheduler_state;
pub mod version;
pub mod worker;
