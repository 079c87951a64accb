//! Periodic sampling of per-interface network byte counters into a durable
//! time-series table.
//!
//! The library holds the logic of the sampler: decoding kernel statistics
//! replies into counters, the append-only sample store, the per-cycle
//! decision machine (skip, record, or stop for each interface), the
//! inter-cycle sleep computation, and the cooperative shutdown flag.
//! Performing the kernel queries, delivering signals, and running the
//! process around the loop belong to the host program.

pub mod counters;
pub mod sample;
pub mod sampler;
pub mod shutdown;
pub mod store;
