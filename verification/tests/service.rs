use budget_tracker::mutation::{
    apply_add, apply_subtract, checked_add, checked_subtract, STATUS_CREATED,
    STATUS_INTERNAL_ERROR,
};
use budget_tracker::page::home_body;
use budget_tracker::store::{read_budget, BudgetError};
use budget_tracker::Budget;

#[test]
fn budget_constructor_keeps_value() {
    let b = Budget::new(5);
    assert_eq!(b.current, 5);
}

#[test]
fn read_missing_file_is_storage_unavailable() {
    assert_eq!(read_budget(None), Err(BudgetError::StorageUnavailable));
}

#[test]
fn read_out_of_range_is_invalid_stored_value() {
    assert_eq!(read_budget(Some("300")), Err(BudgetError::InvalidStoredValue));
    assert_eq!(read_budget(Some("garbage")), Err(BudgetError::InvalidStoredValue));
}

#[test]
fn read_valid_value() {
    assert_eq!(read_budget(Some("10")), Ok(10));
}

#[test]
fn add_within_range() {
    assert_eq!(checked_add(10, 5), Ok(15));
    assert_eq!(checked_add(250, 5), Ok(255));
}

#[test]
fn add_at_upper_boundary_overflows() {
    assert_eq!(checked_add(255, 1), Err(BudgetError::Overflow));
    assert_eq!(checked_add(200, 100), Err(BudgetError::Overflow));
}

#[test]
fn subtract_within_range() {
    assert_eq!(checked_subtract(10, 3), Ok(7));
    assert_eq!(checked_subtract(10, 10), Ok(0));
}

#[test]
fn subtract_at_lower_boundary_underflows() {
    assert_eq!(checked_subtract(0, 1), Err(BudgetError::Underflow));
    assert_eq!(checked_subtract(5, 6), Err(BudgetError::Underflow));
}

#[test]
fn add_then_read_returns_sum() {
    let out = apply_add(Some("10"), 5);
    assert_eq!(out.status, STATUS_CREATED);
    assert_eq!(out.reply.current, 15);
    let written = out.persist.expect("a successful add persists the new value");
    assert_eq!(written, "15");
    assert_eq!(read_budget(Some(&written)), Ok(15));
}

#[test]
fn subtract_then_read_returns_difference() {
    let out = apply_subtract(Some("10"), 3);
    assert_eq!(out.status, STATUS_CREATED);
    assert_eq!(out.reply.current, 7);
    let written = out.persist.expect("a successful subtract persists the new value");
    assert_eq!(written, "7");
    assert_eq!(read_budget(Some(&written)), Ok(7));
}

#[test]
fn add_on_missing_file_fails_with_500_and_zero() {
    let out = apply_add(None, 5);
    assert_eq!(out.status, STATUS_INTERNAL_ERROR);
    assert_eq!(out.reply.current, 0);
    assert_eq!(out.persist, None);
}

#[test]
fn mutations_on_out_of_range_store_fail() {
    let add = apply_add(Some("300"), 5);
    assert_eq!(add.status, STATUS_INTERNAL_ERROR);
    assert_eq!(add.reply.current, 0);
    assert_eq!(add.persist, None);
    let sub = apply_subtract(Some("300"), 5);
    assert_eq!(sub.status, STATUS_INTERNAL_ERROR);
    assert_eq!(sub.reply.current, 0);
    assert_eq!(sub.persist, None);
}

#[test]
fn add_overflow_writes_nothing() {
    let out = apply_add(Some("255"), 1);
    assert_eq!(out.status, STATUS_INTERNAL_ERROR);
    assert_eq!(out.reply.current, 0);
    assert_eq!(out.persist, None);
}

#[test]
fn subtract_underflow_writes_nothing() {
    let out = apply_subtract(Some("0"), 1);
    assert_eq!(out.status, STATUS_INTERNAL_ERROR);
    assert_eq!(out.reply.current, 0);
    assert_eq!(out.persist, None);
}

#[test]
fn home_on_missing_file() {
    assert_eq!(home_body(None), "No budget found");
}

#[test]
fn home_on_unparsable_store() {
    assert_eq!(home_body(Some("300")), "Invalid budget");
    assert_eq!(home_body(Some("")), "Invalid budget");
    assert_eq!(home_body(Some("abc")), "Invalid budget");
}

#[test]
fn home_page_contains_budget_heading() {
    let body = home_body(Some("10"));
    assert!(body.contains("Current Budget: 10 \u{20ac}"));
    assert!(body.starts_with("<!DOCTYPE html>"));
    let body = home_body(Some("255"));
    assert!(body.contains("Current Budget: 255 \u{20ac}"));
    let body = home_body(Some("0"));
    assert!(body.contains("Current Budget: 0 \u{20ac}"));
}
