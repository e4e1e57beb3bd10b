//! The budget store: validation of what was read from the persisted file.
//!
//! The file on disk is the single source of truth; every operation re-reads
//! it. The caller performs the raw file I/O and hands the outcome in as a
//! plain value: `None` when the file could not be read at all, `Some(text)`
//! with its full contents otherwise. This module turns that outcome into a
//! validated budget value or an error, and fixes the representation that a
//! write must persist: the decimal ASCII string of the value, nothing else.

use vstd::prelude::*;

use crate::digits::{dec_rep, lemma_round_trip, parse_decimal, parse_spec};

verus! {

/// Everything that can go wrong while serving a request.
#[derive(Clone, Copy, Debug, PartialEq, Eq, Structural)]
pub enum BudgetError {
    /// The persisted file could not be read or written.
    StorageUnavailable,
    /// The file exists but does not hold a decimal integer in `[0, 255]`.
    InvalidStoredValue,
    /// An add would push the value above 255. The reference behaviour left
    /// this open; this library's documented policy is to reject the
    /// mutation with this error and leave the stored value untouched.
    Overflow,
    /// A subtract would push the value below 0; rejected like `Overflow`.
    Underflow,
}

/// The raw read outcome as the specification sees it: `None` when the file
/// could not be read, otherwise the characters it holds.
pub open spec fn stored_view(stored: Option<&str>) -> Option<Seq<char>> {
    match stored {
        Option::None => Option::None,
        Option::Some(s) => Option::Some(s@),
    }
}

/// What reading the store yields for a given raw read outcome.
pub open spec fn read_spec(stored: Option<Seq<char>>) -> Result<u8, BudgetError> {
    match stored {
        Option::None => Result::Err(BudgetError::StorageUnavailable),
        Option::Some(s) => match parse_spec(s) {
            Option::None => Result::Err(BudgetError::InvalidStoredValue),
            Option::Some(v) => Result::Ok(v),
        },
    }
}

/// Validates a raw read outcome: a missing or unreadable file is
/// `StorageUnavailable`, contents that are not a decimal integer in
/// `[0, 255]` are `InvalidStoredValue`, anything else is the stored value.
pub fn read_budget(stored: Option<&str>) -> (r: Result<u8, BudgetError>)
    ensures
        r == read_spec(stored_view(stored)),
{
    match stored {
        None => Err(BudgetError::StorageUnavailable),
        Some(s) => match parse_decimal(s) {
            None => Err(BudgetError::InvalidStoredValue),
            Some(v) => Ok(v),
        },
    }
}

/// Round trip: a file holding the decimal string of `v` reads back as
/// exactly `v`, for every value in `[0, 255]`.
pub proof fn lemma_store_round_trip(v: u8)
    ensures
        read_spec(Some(dec_rep(v as nat))) == Result::<u8, BudgetError>::Ok(v),
{
    lemma_round_trip(v);
}

} // verus!
