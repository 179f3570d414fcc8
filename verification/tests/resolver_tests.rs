use judge_core::problem::TestCaseResult;
use judge_core::resolver::{reduce, representative_case, status_precedence, ResolveError};
use judge_core::status::Status;

fn case(id: &str, status: Status) -> TestCaseResult {
    TestCaseResult {
        status,
        id: id.to_string(),
        output: None,
    }
}

#[test]
fn worst_status_wins() {
    let cases = vec![
        case("a", Status::Accepted),
        case("b", Status::WrongAnswer),
        case("c", Status::RuntimeError),
    ];
    assert_eq!(reduce(false, &cases), Ok(Status::RuntimeError));
}

#[test]
fn all_accepted_is_accepted() {
    let cases = vec![case("a", Status::Accepted), case("b", Status::Accepted)];
    assert_eq!(reduce(false, &cases), Ok(Status::Accepted));
}

#[test]
fn empty_list_passes_vacuously() {
    let cases: Vec<TestCaseResult> = vec![];
    assert_eq!(reduce(false, &cases), Ok(Status::Accepted));
    assert_eq!(representative_case(&cases), Ok(None));
}

#[test]
fn severity_order_is_total() {
    let cases = vec![
        case("a", Status::PartialPoints),
        case("b", Status::TimeLimitExceeded),
        case("c", Status::WrongAnswer),
    ];
    assert_eq!(reduce(false, &cases), Ok(Status::TimeLimitExceeded));
}

#[test]
fn compile_failure_short_circuits() {
    let cases = vec![
        case("a", Status::Accepted),
        case("b", Status::RuntimeError),
        // even a status outside the table is never looked at
        case("c", Status::Pending),
    ];
    assert_eq!(reduce(true, &cases), Ok(Status::CompilationError));
    let empty: Vec<TestCaseResult> = vec![];
    assert_eq!(reduce(true, &empty), Ok(Status::CompilationError));
}

#[test]
fn reduction_is_deterministic() {
    let cases = vec![
        case("2", Status::WrongAnswer),
        case("1", Status::WrongAnswer),
        case("3", Status::Accepted),
    ];
    let first = reduce(false, &cases);
    let second = reduce(false, &cases);
    assert_eq!(first, second);
    assert_eq!(first, Ok(Status::WrongAnswer));
    // under a tie in worst precedence the ascending id wins, each time
    let chosen = representative_case(&cases).unwrap();
    assert_eq!(chosen, Some(1));
    assert_eq!(representative_case(&cases).unwrap(), Some(1));
}

#[test]
fn tie_break_prefers_ascending_id() {
    let cases = vec![
        case("delta", Status::RuntimeError),
        case("alpha", Status::RuntimeError),
        case("beta", Status::RuntimeError),
        case("zeta", Status::Accepted),
    ];
    assert_eq!(representative_case(&cases).unwrap(), Some(1));
}

#[test]
fn tie_break_keeps_first_of_equal_ids() {
    let cases = vec![
        case("same", Status::WrongAnswer),
        case("same", Status::WrongAnswer),
    ];
    assert_eq!(representative_case(&cases).unwrap(), Some(0));
}

#[test]
fn unranked_status_is_surfaced() {
    let cases = vec![
        case("a", Status::Accepted),
        case("b", Status::Pending),
        case("c", Status::UnknownError("boom".to_string())),
    ];
    assert_eq!(
        reduce(false, &cases),
        Err(ResolveError::InconsistentStatus { index: 1 })
    );
    let cases2 = vec![
        case("a", Status::UnknownError(String::new())),
        case("b", Status::Accepted),
    ];
    assert_eq!(
        reduce(false, &cases2),
        Err(ResolveError::InconsistentStatus { index: 0 })
    );
    let cases3 = vec![case("a", Status::Accepted), case("b", Status::CompilationError)];
    assert_eq!(
        representative_case(&cases3),
        Err(ResolveError::InconsistentStatus { index: 1 })
    );
}

#[test]
fn precedence_table_is_exact() {
    assert_eq!(status_precedence(&Status::Accepted), Some(0));
    assert_eq!(status_precedence(&Status::PartialPoints), Some(1));
    assert_eq!(status_precedence(&Status::WrongAnswer), Some(2));
    assert_eq!(status_precedence(&Status::TimeLimitExceeded), Some(3));
    assert_eq!(status_precedence(&Status::RuntimeError), Some(4));
    assert_eq!(status_precedence(&Status::Pending), None);
    assert_eq!(status_precedence(&Status::CompilationError), None);
    assert_eq!(
        status_precedence(&Status::UnknownError("x".to_string())),
        None
    );
}
