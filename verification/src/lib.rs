//! A backend-agnostic job-processing core. Jobs are pulled from a backend
//! as a uniform stream of [`request::Request`] values; a
//! [`controller::Controller`] layers backpressure on the pull; the
//! [`worker::Worker`] loop dispatches each job to a handler and honors
//! cooperative shutdown; a [`monitor::Monitor`] supervises the worker set.
//! The [`mq::MessageQueue`] capability and its in-memory implementation,
//! [`memory::MemoryStorage`], serve backends with no external store.
//!
//! Everything that decides — queue order, capacity, backpressure, shutdown,
//! rate limiting — is verified; the surrounding runtime only waits, locks
//! and calls handlers.

pub mod controller;
pub mod memory;
pub mod monitor;
pub mod mq;
pub mod rate;
pub mod request;
pub mod worker;
