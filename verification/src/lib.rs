//! A batch-oriented packet-processing core: zero-copy buffer handles,
//! frame header parsing, queue endpoints with receive/transmit capabilities,
//! a composable batch pipeline, a per-core cooperative scheduler, and a
//! top-level context that owns ports and schedulers.

pub mod align;
pub mod buffer;
pub mod context;
pub mod counter;
pub mod errors;
pub mod frame;
pub mod mac;
pub mod pipeline;
pub mod port;
pub mod queue;
pub mod scheduler;
