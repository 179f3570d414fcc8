use vstd::prelude::*;

use bit_vec::BitVec;

use crate::codec::{ProblemID, SubmissionId};
use crate::contest::Language;
use crate::status::StatusPG;

verus! {

/// The intake shape of one submission.
#[derive(Debug, Clone)]
pub struct SubmitForm {
    pub language: Language,
    pub code: String,
    pub problem_id: u32,
    pub contest_id: Option<u32>,
}

/// A request for a slice of a problem's submissions.
#[derive(Debug, Clone)]
pub struct GetSubmissionsForm {
    pub problem_id: ProblemID,
    pub from: usize,
    pub to: usize,
}

/// A request naming one submission.
#[derive(Debug, Clone)]
pub struct GetSubmissionId {
    pub submission_id: SubmissionId,
}

/// One stored submission row, as persistence hands it over: the
/// identifier still in its bit-vector form, the judgment as a raw
/// JSON value.
#[derive(Debug)]
pub struct GetSubmissionsSqlx {
    pub output: Option<serde_json::Value>,
    pub submission_id: BitVec,
    pub status: StatusPG,
    pub language: String,
}

/// One submission row as the display layer receives it, every field
/// already in its textual form.
#[derive(Debug)]
pub struct GetSubmissionsJson {
    pub output: Option<serde_json::Value>,
    pub submission_id: String,
    pub status: String,
    pub language: String,
    pub submitted_at: u64,
}

/// What intake answers: the new submission's identifier in its
/// decimal string form.
#[derive(Debug, Clone)]
pub struct SubmitResponse {
    pub submission_id: String,
}

} // verus!
