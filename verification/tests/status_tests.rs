use judge_core::status::{Status, StatusPG};

#[test]
fn status_display_matches_the_wire_form() {
    assert_eq!(Status::Accepted.display_string(), "Accepted");
    assert_eq!(Status::WrongAnswer.display_string(), "Wrong Answer");
    assert_eq!(
        Status::TimeLimitExceeded.display_string(),
        "Time Limit Exceeded"
    );
    assert_eq!(Status::PartialPoints.display_string(), "Partial Execution");
    assert_eq!(Status::RuntimeError.display_string(), "Runtime Error");
    assert_eq!(
        Status::UnknownError("oops".to_string()).display_string(),
        "Unknown Error:(oops)"
    );
    assert_eq!(
        Status::CompilationError.display_string(),
        "Compilation Error"
    );
    assert_eq!(Status::Pending.display_string(), "Pending");
}

#[test]
fn status_parses_both_spellings() {
    assert_eq!(Status::from_string("Accepted".to_string()), Status::Accepted);
    assert_eq!(Status::from_string("accepted".to_string()), Status::Accepted);
    assert_eq!(
        Status::from_string("Wrong Answer".to_string()),
        Status::WrongAnswer
    );
    assert_eq!(
        Status::from_string("wrong_answer".to_string()),
        Status::WrongAnswer
    );
    assert_eq!(
        Status::from_string("Time Limit Exceeded".to_string()),
        Status::TimeLimitExceeded
    );
    assert_eq!(
        Status::from_string("time_limit_exceeded".to_string()),
        Status::TimeLimitExceeded
    );
    assert_eq!(
        Status::from_string("Runtime Error".to_string()),
        Status::RuntimeError
    );
    assert_eq!(
        Status::from_string("runtime_error".to_string()),
        Status::RuntimeError
    );
    assert_eq!(Status::from_string("Pending".to_string()), Status::Pending);
    assert_eq!(Status::from_string("pending".to_string()), Status::Pending);
    assert_eq!(
        Status::from_string("Compilation Error".to_string()),
        Status::CompilationError
    );
    assert_eq!(
        Status::from_string("compilation_error".to_string()),
        Status::CompilationError
    );
    assert_eq!(
        Status::from_string("Unknown Error".to_string()),
        Status::UnknownError(String::new())
    );
    assert_eq!(
        Status::from_string("unknown_error".to_string()),
        Status::UnknownError(String::new())
    );
}

#[test]
fn unrecognized_status_strings_are_kept_as_diagnostics() {
    assert_eq!(
        Status::from_string("segfault at 0x0".to_string()),
        Status::UnknownError("segfault at 0x0".to_string())
    );
    assert_eq!(
        Status::from_string("ACCEPTED".to_string()),
        Status::UnknownError("ACCEPTED".to_string())
    );
    assert_eq!(
        Status::from_string(String::new()),
        Status::UnknownError(String::new())
    );
}

#[test]
fn pending_is_the_initial_state() {
    assert_eq!(Status::default(), Status::Pending);
    assert_eq!(StatusPG::default(), StatusPG::Pending);
}

#[test]
fn status_pg_display_matches_the_wire_form() {
    assert_eq!(StatusPG::Accepted.display_string(), "Accepted");
    assert_eq!(StatusPG::WrongAnswer.display_string(), "Wrong Answer");
    assert_eq!(
        StatusPG::TimeLimitExceeded.display_string(),
        "Time Limit Exceeded"
    );
    assert_eq!(StatusPG::PartialPoints.display_string(), "Partial Execution");
    assert_eq!(StatusPG::RuntimeError.display_string(), "Runtime Error");
    assert_eq!(StatusPG::UnknownError.display_string(), "UnknownError");
    assert_eq!(
        StatusPG::CompilationError.display_string(),
        "Compilation Error"
    );
    assert_eq!(StatusPG::Pending.display_string(), "Pending");
}

#[test]
fn status_clones_exactly() {
    let s = Status::UnknownError("detail".to_string());
    assert_eq!(s.clone(), s);
    assert_eq!(Status::Accepted.clone(), Status::Accepted);
}
