//! Decoding of coin-store resource writes into balance records.

use vstd::prelude::*;

pub mod address;
pub mod digits;
pub mod events;
pub mod hashing;
pub mod payload;
pub mod records;
pub mod resolver;
pub mod resource;

verus! {

/// A point-in-time timestamp carried through unchanged into the output
/// records, as whole seconds since the epoch plus a sub-second part.
#[derive(Clone, Copy, Debug, PartialEq, Eq, Structural)]
pub struct Timestamp {
    pub secs: i64,
    pub subsec_nanos: u32,
}

} // verus!
