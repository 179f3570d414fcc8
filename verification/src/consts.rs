use vstd::prelude::*;

verus! {

pub const USERNAME_MIN_SIZE: usize = 5;
pub const USERNAME_MAX_SIZE: usize = 25;
pub const USERNAME_FORBIDDEN_CHARACTERS: [char; 10] = [
    '@',
    '<',
    '>',
    '/',
    '\\',
    '{',
    '}',
    '(',
    ')',
    '"',
];

pub const MAX_SUBMISSION_FILE_SIZE_IN_BYTES: usize = 71680;
pub const MAX_SUBMISSION_FILE_SIZE_IN_KB: usize = 70;

/// Total width of a submission identifier.
pub const SUBMISSION_ID_BITS: u128 = 128;
/// Width of the milliseconds-since-epoch field.
pub const TIMESTAMP_BITS: u128 = 41;
/// Width of the contest-identifier field.
pub const CONTEST_ID_BITS: u128 = 32;
/// Width of the problem-identifier field.
pub const PROBLEM_ID_BITS: u128 = 32;
/// Width of the submitter-entropy field (the time-mid bits of the user id).
pub const UUID_TIME_MID_BITS: u128 = 16;
/// Trailing reserved bits, always zero.
pub const EMPTY_BITS: u128 = SUBMISSION_ID_BITS
    - (TIMESTAMP_BITS + CONTEST_ID_BITS + PROBLEM_ID_BITS + UUID_TIME_MID_BITS);

pub const CONTEST_MIN_DURATION_IN_SECONDS: i64 = 300;
pub const CONTEST_MAX_DURATION_IN_SECONDS: i64 = 60 * 60 * 24 * 30;
pub const MAX_PROBLEMS_PER_CONTEST: usize = 50;

} // verus!
