//! Verified core of a concurrent load-generation benchmark driver.
//!
//! The library holds the work-distribution and sampling engine: a batch
//! allocator that partitions a fixed task index space into disjoint ranges,
//! a probabilistic latency sampler, the worker state machine that decides
//! which operation to issue next and checks what came back, the merge of
//! per-worker latency sample buffers, and the driver-level decisions.
//! Network I/O against the database is performed by the surrounding binary,
//! which drives the worker machine with the outcomes of its calls.

pub mod config;
pub mod allocator;
pub mod sampler;
pub mod values;
pub mod table;
pub mod collector;
pub mod worker;
pub mod driver;
