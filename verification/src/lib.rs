//! A local document-processing job engine.
//!
//! The engine accepts document-transformation requests (merge, split,
//! rotate, compress, reorder, extract, encrypt, decrypt, metadata
//! read/write), keeps them as durable job records, plans their execution
//! through external-tool adapters, and exposes status and cancellation.
//! All sequencing, validation and failure-containment decisions live in
//! this crate and are verified; the surrounding process (file I/O,
//! subprocess spawning, the async runtime) drives the engine from outside.

pub mod adapters;
pub mod audit;
pub mod config;
pub mod engine;
pub mod errors;
pub mod licensing;
pub mod model;
pub mod paths;
pub mod services;
pub mod store;
pub mod sys;
pub mod text;
