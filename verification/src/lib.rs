//! A verified orchestration core for multi-provider content generation.
//!
//! The library translates normalized generation requests into per-provider
//! wire requests, parses and normalizes the responses, drives the polling
//! protocol of long-running (video) operations as a state machine, and
//! advances queued jobs through their lifecycle. All remote I/O is performed
//! by the embedding application, which exchanges plain request/response
//! values with the verified code.

pub mod b64;
pub mod error;
pub mod gen;
pub mod http;
pub mod models;
pub mod numfmt;
pub mod operations;
pub mod params;
pub mod processor;
pub mod providers;
pub mod service;
pub mod session;
pub mod strutil;
pub mod utils;
