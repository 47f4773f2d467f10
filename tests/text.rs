use poise_paginator::{decimal_string, missing_page_text, parse_page_number, PageInputError};

#[test]
fn decimal_of_numbers() {
    assert_eq!(decimal_string(0), "0");
    assert_eq!(decimal_string(7), "7");
    assert_eq!(decimal_string(10), "10");
    assert_eq!(decimal_string(1234567890123), "1234567890123");
    assert_eq!(decimal_string(u128::MAX), u128::MAX.to_string());
}

#[test]
fn page_numbers_are_one_based() {
    assert_eq!(parse_page_number("1"), Ok(0));
    assert_eq!(parse_page_number("12"), Ok(11));
    assert_eq!(parse_page_number("+7"), Ok(6));
    assert_eq!(parse_page_number("007"), Ok(6));
}

#[test]
fn page_number_errors() {
    assert_eq!(parse_page_number(""), Err(PageInputError::Empty));
    assert_eq!(parse_page_number("+"), Err(PageInputError::InvalidDigit));
    assert_eq!(parse_page_number("-1"), Err(PageInputError::InvalidDigit));
    assert_eq!(parse_page_number("4a"), Err(PageInputError::InvalidDigit));
    assert_eq!(parse_page_number(" 4"), Err(PageInputError::InvalidDigit));
    assert_eq!(parse_page_number("٣"), Err(PageInputError::InvalidDigit));
    assert_eq!(parse_page_number("0"), Err(PageInputError::Zero));
    assert_eq!(parse_page_number("99999999999999999999999"), Err(PageInputError::TooLarge));
}

#[test]
fn largest_page_number() {
    let max = usize::MAX.to_string();
    assert_eq!(parse_page_number(&max), Ok(usize::MAX - 1));
}

#[test]
fn error_messages() {
    assert_eq!(PageInputError::Empty.message(), "cannot parse integer from empty string");
    assert_eq!(PageInputError::InvalidDigit.message(), "invalid digit found in string");
    assert_eq!(PageInputError::TooLarge.message(), "number too large to fit in target type");
    assert_eq!(PageInputError::Zero.message(), "page numbers start at 1");
}

#[test]
fn missing_page_notice() {
    assert_eq!(missing_page_text(5), "Page 6 does not exist.");
    assert_eq!(missing_page_text(0), "Page 1 does not exist.");
    assert_eq!(missing_page_text(usize::MAX), format!("Page {} does not exist.", usize::MAX as u128 + 1));
}

#[test]
fn counter_page_reads_back() {
    assert_eq!(parse_page_number(&decimal_string(6)), Ok(5));
    assert_eq!(parse_page_number(&decimal_string(usize::MAX as u128)), Ok(usize::MAX - 1));
}
