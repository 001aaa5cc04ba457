//! Turns declarative, container-backed task definitions into one-shot job
//! manifests, and decides how a task operator answers its callers.
//!
//! Everything here is a function from plain values to plain values. The
//! program around the library talks to the cluster and to HTTP clients; the
//! library states, and proves, what is built and what is answered.

pub mod config;
pub mod decimal;
pub mod error;
pub mod job;
pub mod outside;
pub mod reconcile;
pub mod service;
pub mod string_map;
pub mod types;
