//! Startup and shutdown orchestration of the web server.
//!
//! The library decides; the program around it performs the network work.
//! [`startup::Startup`] walks the startup sequence (identity provider
//! discovery, pipeline assembly, listener bootstrap, serving) one event at a
//! time and answers each with the next action. [`shutdown::ShutdownCoordinator`]
//! turns the first termination signal into a single graceful-shutdown delivery.
//! [`pipeline::pipeline_plan`] describes the request-handling pipeline that is
//! mounted before the socket opens.

pub mod address;
pub mod config;
pub mod error;
pub mod pipeline;
pub mod shutdown;
pub mod startup;
