//! Admission and execution control for a batching proxy: a capacity-bounded,
//! deadline-aware work queue with dynamic capacity and wake-on-availability
//! semantics, paired with a reusable-resource pool for downstream
//! connections, and the per-batch admission, deadline and assembly decisions
//! built on them.

pub mod api;
pub mod batch;
pub mod pool;
pub mod queue;
