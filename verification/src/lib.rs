//! A small budget-tracking library.
//!
//! The budget is a single unsigned value in `[0, 255]`, persisted as its
//! decimal ASCII string. This crate holds the verified core: the decimal
//! codec for the stored representation, the bounded add/subtract mutations,
//! and the pure request pipeline that decides each response body, status
//! and write. All file and HTTP plumbing lives outside the library and
//! hands in plain values.

pub mod digits;
pub mod mutation;
pub mod page;
pub mod store;

use vstd::prelude::*;

verus! {

/// The tracked budget: a single value in `[0, 255]`.
pub struct Budget {
    pub current: u8,
}

impl Budget {
    pub fn new(current: u8) -> (b: Budget)
        ensures
            b.current == current,
    {
        Budget { current }
    }
}

} // verus!
