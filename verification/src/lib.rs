//! A synthetic block-storage workload generator: a fixed-width wire codec for
//! request headers, per-connection completion queues, a synthetic connection
//! that bridges blocking reads onto asynchronous completions, a deterministic
//! seeded workload protocol, and a rate-controlled load driver.

use vstd::prelude::*;

pub mod codec;
pub mod conn;
pub mod driver;
pub mod protocol;
pub mod registry;

verus! {

/// The number of bytes of an encoded request header on the wire.
pub const SANDOOK_HDR_SZ: usize = 42;

} // verus!
