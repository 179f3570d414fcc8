use vstd::prelude::*;

use crate::codec::ProblemID;
use crate::status::Status;
use crate::user::UserId;

verus! {

/// What the execution engine reports of a finished process: its exit
/// code (absent when the process was ended by a signal) and its
/// captured streams.
#[derive(Debug, Clone, PartialEq, Eq)]
pub struct ProcessOutput {
    pub code: Option<i32>,
    pub stdout: Vec<u8>,
    pub stderr: Vec<u8>,
}

/// One test case's outcome, owned by the execution engine and read by
/// the resolver.
#[derive(Debug, Clone, PartialEq, Eq)]
pub struct TestCaseResult {
    pub status: Status,
    pub id: String,
    pub output: Option<ProcessOutput>,
}

/// The assembled judgment of one submission: the overall status, the
/// ordered per-test-case results, and the prepare/compile diagnostics.
#[derive(Debug, Clone, PartialEq, Eq)]
pub struct ProblemExecutorResult {
    pub overall_result: Status,
    pub test_cases_results: Vec<TestCaseResult>,
    pub prepare_output: Option<ProcessOutput>,
}

#[derive(Debug, Clone)]
pub struct ProblemBody {
    pub information: String,
    pub identifier: Option<String>,
    pub name: String,
    pub input: String,
    pub output: String,
    pub problem: String,
    pub note: Option<String>,
}

#[derive(Debug, Clone)]
pub struct Checker {
    pub checker: String,
}

#[derive(Debug, Clone, PartialEq, Eq, Structural)]
pub enum ValidationType {
    TestlibChecker,
    LiteralChecker,
    Interactive,
}

impl Default for ValidationType {
    fn default() -> (r: Self)
        ensures
            r == ValidationType::LiteralChecker,
    {
        ValidationType::LiteralChecker
    }
}

/// A resource or time limit lies outside its allowed range.
#[derive(Debug, Clone, PartialEq, Eq)]
pub enum ValidationError {
    MemoryLimitOutOfRange,
    TimeLimitOutOfRange,
}

/// The configured memory limit must lie in 256..=512 megabytes.
pub open spec fn memory_limit_valid(memory_limit: u16) -> bool {
    256 <= memory_limit <= 512
}

/// The configured time limit must lie in 1..=10 seconds.
pub open spec fn time_limit_valid(time_limit: u16) -> bool {
    1 <= time_limit <= 10
}

/// A problem statement with its judging configuration. The creation
/// time is held as milliseconds since the Unix epoch.
#[derive(Debug, Clone)]
pub struct Problem {
    pub id: ProblemID,
    pub created_at: i64,
    pub submitted_by: UserId,
    pub body: ProblemBody,
    pub checker: Option<Checker>,
    pub validation: ValidationType,
    pub memory_limit: u16,
    pub time_limit: u16,
    pub is_public: bool,
    pub test_cases: Vec<String>,
}

impl Problem {
    /// Checks the configured limits, memory first.
    pub fn validate(&self) -> (r: Result<(), ValidationError>)
        ensures
            r matches Ok(_) <==> (memory_limit_valid(self.memory_limit) && time_limit_valid(
                self.time_limit,
            )),
            r matches Err(ValidationError::MemoryLimitOutOfRange) <==> !memory_limit_valid(
                self.memory_limit,
            ),
            r matches Err(ValidationError::TimeLimitOutOfRange) <==> (memory_limit_valid(
                self.memory_limit,
            ) && !time_limit_valid(self.time_limit)),
    {
        validate_limits(self.memory_limit, self.time_limit)
    }
}

#[derive(Debug, Clone)]
pub struct ProblemGetResponse {
    pub problem_id: u32,
    pub body: ProblemBody,
}

/// The intake shape of a problem, before a problem id is assigned.
#[derive(Debug, Clone)]
pub struct ProblemForm {
    pub body: ProblemBody,
    pub checker: Option<String>,
    pub validation: ValidationType,
    pub memory_limit: u16,
    pub time_limit: u16,
    pub is_public: bool,
}

impl ProblemForm {
    /// Checks the configured limits, memory first.
    pub fn validate(&self) -> (r: Result<(), ValidationError>)
        ensures
            r matches Ok(_) <==> (memory_limit_valid(self.memory_limit) && time_limit_valid(
                self.time_limit,
            )),
            r matches Err(ValidationError::MemoryLimitOutOfRange) <==> !memory_limit_valid(
                self.memory_limit,
            ),
            r matches Err(ValidationError::TimeLimitOutOfRange) <==> (memory_limit_valid(
                self.memory_limit,
            ) && !time_limit_valid(self.time_limit)),
    {
        validate_limits(self.memory_limit, self.time_limit)
    }
}

/// The shared limit check: memory in 256..=512 MB, time in 1..=10 s.
pub fn validate_limits(memory_limit: u16, time_limit: u16) -> (r: Result<(), ValidationError>)
    ensures
        r matches Ok(_) <==> (memory_limit_valid(memory_limit) && time_limit_valid(time_limit)),
        r matches Err(ValidationError::MemoryLimitOutOfRange) <==> !memory_limit_valid(
            memory_limit,
        ),
        r matches Err(ValidationError::TimeLimitOutOfRange) <==> (memory_limit_valid(memory_limit)
            && !time_limit_valid(time_limit)),
{
    if memory_limit < 256 || memory_limit > 512 {
        Err(ValidationError::MemoryLimitOutOfRange)
    } else if time_limit < 1 || time_limit > 10 {
        Err(ValidationError::TimeLimitOutOfRange)
    } else {
        Ok(())
    }
}

#[derive(Debug, Clone)]
pub struct TestCaseInfo {
    pub stdin_path: String,
    pub stdout_path: Option<String>,
    pub problem_id: ProblemID,
    pub id: String,
}

#[derive(Debug, Clone)]
pub struct TestCaseConfig {
    pub test_cases: Vec<String>,
    pub problem_id: ProblemID,
}

/// A sample test case used when exercising the pipeline by hand.
pub struct STestCase {
    pub input_case: String,
    pub output_case: String,
    pub id: UserId,
}

} // verus!
