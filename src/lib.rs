//! Storage-area adapter that keeps a document archive's objects in an
//! S3-compatible bucket.

mod bridge;
pub mod codes;
pub mod config;
pub mod events;
pub mod store;
pub mod plugin;
