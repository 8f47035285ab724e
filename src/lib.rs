//! Concurrent asset fetching for a host application's download subsystem.
//!
//! The verified core decides what happens to each download request, tracks
//! in-flight fetches in a registry, and turns transfer results into outcomes.
//! Threads, sockets, files and the host's own entry points are driven by the
//! caller, which hands plain values in and takes plain values back.
pub mod coordinator;
pub mod config;
pub mod error;
pub mod path;
pub mod registry;
pub mod worker;
