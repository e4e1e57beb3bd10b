//! The mutation service: the read-modify-write cycle behind the add and
//! subtract endpoints, computed as a pure function of the raw read outcome.
//!
//! A mutation reads the stored value, applies the delta under the bounds
//! of `[0, 255]`, and on success hands back both the reply and the exact
//! contents that must be written to the file. Arithmetic that would leave
//! the range is rejected with `Overflow` or `Underflow` and nothing is
//! written; read errors pass through unchanged. The caller performs the
//! actual write and sends the reply.

use vstd::prelude::*;

use crate::Budget;
use crate::digits::{dec_rep, format_value, lemma_round_trip};
use crate::store::{read_budget, read_spec, stored_view, BudgetError};

verus! {

/// HTTP status of a successful mutation.
pub const STATUS_CREATED: u16 = 201;

/// HTTP status of a failed mutation.
pub const STATUS_INTERNAL_ERROR: u16 = 500;

/// What `add` yields on a current value: the sum when it stays in range,
/// `Overflow` otherwise.
pub open spec fn add_spec(current: u8, delta: u8) -> Result<u8, BudgetError> {
    if current + delta <= 255 {
        Result::Ok((current + delta) as u8)
    } else {
        Result::Err(BudgetError::Overflow)
    }
}

/// What `subtract` yields on a current value: the difference when it stays
/// in range, `Underflow` otherwise.
pub open spec fn sub_spec(current: u8, delta: u8) -> Result<u8, BudgetError> {
    if delta <= current {
        Result::Ok((current - delta) as u8)
    } else {
        Result::Err(BudgetError::Underflow)
    }
}

/// Adds `delta` to `current`, rejecting a sum above 255.
pub fn checked_add(current: u8, delta: u8) -> (r: Result<u8, BudgetError>)
    ensures
        r == add_spec(current, delta),
{
    let sum: u16 = current as u16 + delta as u16;
    if sum <= 255 {
        Ok(sum as u8)
    } else {
        Err(BudgetError::Overflow)
    }
}

/// Subtracts `delta` from `current`, rejecting a difference below 0.
pub fn checked_subtract(current: u8, delta: u8) -> (r: Result<u8, BudgetError>)
    ensures
        r == sub_spec(current, delta),
{
    if delta <= current {
        Ok(current - delta)
    } else {
        Err(BudgetError::Underflow)
    }
}

/// The whole read-modify-write cycle of an add, over the raw read outcome.
pub open spec fn apply_add_spec(stored: Option<Seq<char>>, delta: u8) -> Result<
    u8,
    BudgetError,
> {
    match read_spec(stored) {
        Result::Ok(v) => add_spec(v, delta),
        Result::Err(e) => Result::Err(e),
    }
}

/// The whole read-modify-write cycle of a subtract.
pub open spec fn apply_subtract_spec(stored: Option<Seq<char>>, delta: u8) -> Result<
    u8,
    BudgetError,
> {
    match read_spec(stored) {
        Result::Ok(v) => sub_spec(v, delta),
        Result::Err(e) => Result::Err(e),
    }
}

/// Everything a mutation endpoint must do with its outcome: the HTTP
/// status, the reply value, and the exact file contents to persist
/// (`None` when nothing may be written).
pub struct MutationOutcome {
    pub status: u16,
    pub reply: Budget,
    pub persist: Option<String>,
}

/// How a mutation outcome reports `result`: success replies `201` with the
/// new value and persists its decimal string; every error replies `500`
/// with value `0` and persists nothing.
pub open spec fn reports(out: MutationOutcome, result: Result<u8, BudgetError>) -> bool {
    match result {
        Result::Ok(nv) => out.status == STATUS_CREATED && out.reply.current == nv && (
        out.persist matches Some(w) && w@ == dec_rep(nv as nat)),
        Result::Err(_) => out.status == STATUS_INTERNAL_ERROR && out.reply.current == 0
            && out.persist is None,
    }
}

/// Serves an add request: validates the raw read outcome, adds `delta`,
/// and reports as `reports` describes.
pub fn apply_add(stored: Option<&str>, delta: u8) -> (out: MutationOutcome)
    ensures
        reports(out, apply_add_spec(stored_view(stored), delta)),
{
    match read_budget(stored) {
        Err(_) => failure_outcome(),
        Ok(v) => match checked_add(v, delta) {
            Err(_) => failure_outcome(),
            Ok(nv) => success_outcome(nv),
        },
    }
}

/// Serves a subtract request, the counterpart of `apply_add`.
pub fn apply_subtract(stored: Option<&str>, delta: u8) -> (out: MutationOutcome)
    ensures
        reports(out, apply_subtract_spec(stored_view(stored), delta)),
{
    match read_budget(stored) {
        Err(_) => failure_outcome(),
        Ok(v) => match checked_subtract(v, delta) {
            Err(_) => failure_outcome(),
            Ok(nv) => success_outcome(nv),
        },
    }
}

/// The reply to a mutation whose value is `nv`.
fn success_outcome(nv: u8) -> (out: MutationOutcome)
    ensures
        reports(out, Result::<u8, BudgetError>::Ok(nv)),
{
    MutationOutcome {
        status: STATUS_CREATED,
        reply: Budget::new(nv),
        persist: Some(format_value(nv)),
    }
}

/// The reply to a mutation that failed for any reason.
fn failure_outcome() -> (out: MutationOutcome)
    ensures
        forall|e: BudgetError| reports(out, Result::<u8, BudgetError>::Err(e)),
{
    MutationOutcome { status: STATUS_INTERNAL_ERROR, reply: Budget::new(0), persist: None }
}

/// Law: an add that stays in range, immediately followed by a read of what
/// it persisted, yields exactly `v + delta`.
pub proof fn lemma_add_then_read(v: u8, delta: u8)
    requires
        v + delta <= 255,
    ensures
        add_spec(v, delta) == Result::<u8, BudgetError>::Ok((v + delta) as u8),
        read_spec(Some(dec_rep((v + delta) as nat))) == Result::<u8, BudgetError>::Ok(
            (v + delta) as u8,
        ),
{
    lemma_round_trip((v + delta) as u8);
}

/// Law: a subtract that stays in range, immediately followed by a read of
/// what it persisted, yields exactly `v - delta`.
pub proof fn lemma_subtract_then_read(v: u8, delta: u8)
    requires
        delta <= v,
    ensures
        sub_spec(v, delta) == Result::<u8, BudgetError>::Ok((v - delta) as u8),
        read_spec(Some(dec_rep((v - delta) as nat))) == Result::<u8, BudgetError>::Ok(
            (v - delta) as u8,
        ),
{
    lemma_round_trip((v - delta) as u8);
}

} // verus!
