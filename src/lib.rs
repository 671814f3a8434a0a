//! Round-trip latency of newline-framed text messages between two peers:
//! the framing of lines on a byte stream, the sender and receiver loops as
//! state machines, the timing arithmetic, and which side binds and dials
//! each connection.
use vstd::prelude::*;

pub mod address;
pub mod framing;
pub mod plan;
pub mod session;
pub mod timing;

verus! {

} // verus!
