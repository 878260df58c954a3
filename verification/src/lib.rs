//! Core of a live-video delivery pipeline: a bounded buffer pool, a
//! planar-to-packed pixel-format converter with exact byte-layout contracts,
//! a stateful decode-session model with single-writer frame lifetimes, a
//! fixed-size output surface written by bounded copies, and the orchestrator
//! that ties them together chunk by chunk.

pub mod convert;
pub mod decode;
pub mod device;
pub mod error;
pub mod ext;
pub mod metrics;
pub mod pipeline;
pub mod pool;
pub mod protocol;
