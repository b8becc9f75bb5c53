//! Core of a host-local container broker: it packages a source tree into a
//! compressed archive, drives an image build from a stream of progress frames,
//! prepares container create/start/stop requests with a fixed host/container
//! port mapping, prunes stale images and containers by age, and projects
//! runtime-reported containers into a normalized record shape.
//!
//! Every call into the container runtime itself is asynchronous I/O and lives
//! in the surrounding application; this crate holds the decision and
//! computation cores with their contracts.

pub mod inventory;
pub mod text;
pub mod image_build;
pub mod lifecycle;
pub mod prune;
pub mod archive;
pub mod connection;
pub mod ids;
