//! A small blog service, verified: a multipart submission is demultiplexed
//! into typed fields, validated, its binary assets are planned onto durable
//! storage under collision-free generated names, and the result is committed
//! as a single record. The feed is read back in reverse-chronological order.
//!
//! The I/O itself (HTTP transport, filesystem writes, the database) lives in
//! the surrounding application; this crate holds every decision the pipeline
//! makes, each with a contract.

pub mod assets;
pub mod demux;
pub mod errors;
pub mod feed;
pub mod models;
pub mod pipeline;
pub mod render;
pub mod text;
