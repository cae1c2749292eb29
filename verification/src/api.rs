//! The plain values the batching surface exchanges with the admission core:
//! per-item results and the backpressure record returned when admission is
//! refused.

use vstd::prelude::*;

verus! {

/// Response body slot for an item refused admission: the queue's capacity and
/// remaining space at that moment, so the caller can back off.
#[derive(Clone, Copy, PartialEq, Eq, Structural, Debug)]
pub struct Backpressure {
    pub queue_capacity: u32,
    pub queue_free_space: u32,
}

/// One completed downstream call: the identifier the caller supplied, the
/// downstream status code and the collected body.
pub struct Response {
    pub id: String,
    pub status_code: u16,
    pub body: Vec<u8>,
}

/// One batch answered: a slot per item, matched to requests by identifier,
/// not by position.
pub struct BatchResponse {
    pub responses: Vec<Response>,
}

} // verus!
