use vstd::prelude::*;
use vstd::string::StringExecFns;

use crate::strutil::str_eq;

verus! {

broadcast use vstd::string::group_string_axioms;

/// The closed set of judging outcomes. `Pending` is the only valid
/// initial state; `UnknownError` carries a free-form diagnostic and is
/// the catch-all for any outcome string the system does not recognize.
#[derive(Debug, Hash, PartialEq, Eq)]
pub enum Status {
    Pending,
    Accepted,
    WrongAnswer,
    TimeLimitExceeded,
    RuntimeError,
    PartialPoints,
    CompilationError,
    UnknownError(String),
}

impl Clone for Status {
    fn clone(&self) -> (r: Self)
        ensures
            r == *self,
    {
        match self {
            Status::Pending => Status::Pending,
            Status::Accepted => Status::Accepted,
            Status::WrongAnswer => Status::WrongAnswer,
            Status::TimeLimitExceeded => Status::TimeLimitExceeded,
            Status::RuntimeError => Status::RuntimeError,
            Status::PartialPoints => Status::PartialPoints,
            Status::CompilationError => Status::CompilationError,
            Status::UnknownError(e) => Status::UnknownError(e.clone()),
        }
    }
}

impl Default for Status {
    fn default() -> (r: Self)
        ensures
            r == Status::Pending,
    {
        Status::Pending
    }
}

/// The human-readable form of a status.
pub open spec fn status_display(s: Status) -> Seq<char> {
    match s {
        Status::Pending => "Pending"@,
        Status::Accepted => "Accepted"@,
        Status::WrongAnswer => "Wrong Answer"@,
        Status::TimeLimitExceeded => "Time Limit Exceeded"@,
        Status::RuntimeError => "Runtime Error"@,
        Status::PartialPoints => "Partial Execution"@,
        Status::CompilationError => "Compilation Error"@,
        Status::UnknownError(e) => "Unknown Error:("@ + e@ + ")"@,
    }
}

impl Status {
    /// The human-readable form, as the display layer prints it.
    pub fn display_string(&self) -> (r: String)
        ensures
            r@ == status_display(*self),
    {
        match self {
            Status::Pending => String::from_str("Pending"),
            Status::Accepted => String::from_str("Accepted"),
            Status::WrongAnswer => String::from_str("Wrong Answer"),
            Status::TimeLimitExceeded => String::from_str("Time Limit Exceeded"),
            Status::RuntimeError => String::from_str("Runtime Error"),
            Status::PartialPoints => String::from_str("Partial Execution"),
            Status::CompilationError => String::from_str("Compilation Error"),
            Status::UnknownError(e) => {
                let mut out = String::from_str("Unknown Error:(");
                out.append(e.as_str());
                out.append(")");
                out
            },
        }
    }

    /// Maps an outcome string to a status; any unrecognized string
    /// becomes the `UnknownError` catch-all carrying that string.
    pub fn from_string(value: String) -> (r: Status)
        ensures
            (value@ == "Accepted"@ || value@ == "accepted"@) ==> r == Status::Accepted,
            (value@ == "Wrong Answer"@ || value@ == "wrong_answer"@) ==> r == Status::WrongAnswer,
            (value@ == "Time Limit Exceeded"@ || value@ == "time_limit_exceeded"@) ==> r
                == Status::TimeLimitExceeded,
            (value@ == "Runtime Error"@ || value@ == "runtime_error"@) ==> r
                == Status::RuntimeError,
            (value@ == "Pending"@ || value@ == "pending"@) ==> r == Status::Pending,
            (value@ == "Compilation Error"@ || value@ == "compilation_error"@) ==> r
                == Status::CompilationError,
            (value@ == "Unknown Error"@ || value@ == "unknown_error"@) ==> (r matches
                Status::UnknownError(e) && e@ == Seq::<char>::empty()),
            !(value@ == "Accepted"@ || value@ == "accepted"@ || value@ == "Wrong Answer"@
                || value@ == "wrong_answer"@ || value@ == "Time Limit Exceeded"@ || value@
                == "time_limit_exceeded"@ || value@ == "Runtime Error"@ || value@
                == "runtime_error"@ || value@ == "Pending"@ || value@ == "pending"@ || value@
                == "Compilation Error"@ || value@ == "compilation_error"@ || value@
                == "Unknown Error"@ || value@ == "unknown_error"@) ==> (r matches
                Status::UnknownError(e) && e@ == value@),
    {
        proof {
            reveal_strlit("Accepted");
            reveal_strlit("accepted");
            reveal_strlit("Wrong Answer");
            reveal_strlit("wrong_answer");
            reveal_strlit("Time Limit Exceeded");
            reveal_strlit("time_limit_exceeded");
            reveal_strlit("Runtime Error");
            reveal_strlit("runtime_error");
            reveal_strlit("Pending");
            reveal_strlit("pending");
            reveal_strlit("Compilation Error");
            reveal_strlit("compilation_error");
            reveal_strlit("Unknown Error");
            reveal_strlit("unknown_error");
            assert("Accepted"@.len() == 8 && "accepted"@.len() == 8);
            assert("Wrong Answer"@.len() == 12 && "wrong_answer"@.len() == 12);
            assert("Time Limit Exceeded"@.len() == 19 && "time_limit_exceeded"@.len() == 19);
            assert("Runtime Error"@.len() == 13 && "runtime_error"@.len() == 13);
            assert("Pending"@.len() == 7 && "pending"@.len() == 7);
            assert("Compilation Error"@.len() == 17 && "compilation_error"@.len() == 17);
            assert("Unknown Error"@.len() == 13 && "unknown_error"@.len() == 13);
            assert("Runtime Error"@[0] == 'R' && "runtime_error"@[0] == 'r');
            assert("Unknown Error"@[0] == 'U' && "unknown_error"@[0] == 'u');
            assert("Time Limit Exceeded"@[0] == 'T' && "time_limit_exceeded"@[0] == 't');
            assert("Accepted"@[0] == 'A' && "accepted"@[0] == 'a');
            assert("Wrong Answer"@[0] == 'W' && "wrong_answer"@[0] == 'w');
            assert("Pending"@[0] == 'P' && "pending"@[0] == 'p');
            assert("Compilation Error"@[0] == 'C' && "compilation_error"@[0] == 'c');
            assert("Runtime Error"@ != "Unknown Error"@);
            assert("Runtime Error"@ != "unknown_error"@);
            assert("runtime_error"@ != "Unknown Error"@);
            assert("runtime_error"@ != "unknown_error"@);
            assert("Time Limit Exceeded"@ != "time_limit_exceeded"@);
            assert("Accepted"@ != "accepted"@);
            assert("Wrong Answer"@ != "wrong_answer"@);
            assert("Runtime Error"@ != "runtime_error"@);
            assert("Pending"@ != "pending"@);
            assert("Compilation Error"@ != "compilation_error"@);
            assert("Unknown Error"@ != "unknown_error"@);
        }
        let s = value.as_str();
        if str_eq(s, "Accepted") || str_eq(s, "accepted") {
            Status::Accepted
        } else if str_eq(s, "Wrong Answer") || str_eq(s, "wrong_answer") {
            Status::WrongAnswer
        } else if str_eq(s, "Time Limit Exceeded") || str_eq(s, "time_limit_exceeded") {
            Status::TimeLimitExceeded
        } else if str_eq(s, "Runtime Error") || str_eq(s, "runtime_error") {
            Status::RuntimeError
        } else if str_eq(s, "Pending") || str_eq(s, "pending") {
            Status::Pending
        } else if str_eq(s, "Compilation Error") || str_eq(s, "compilation_error") {
            Status::CompilationError
        } else if str_eq(s, "Unknown Error") || str_eq(s, "unknown_error") {
            Status::UnknownError(String::new())
        } else {
            Status::UnknownError(value)
        }
    }
}

/// The storage-facing status vocabulary: the same outcomes, with the
/// diagnostic text of `UnknownError` left behind.
#[derive(Debug, Clone, Copy, Hash, PartialEq, Eq, Structural)]
pub enum StatusPG {
    Pending,
    Accepted,
    WrongAnswer,
    RuntimeError,
    TimeLimitExceeded,
    CompilationError,
    PartialPoints,
    UnknownError,
}

impl Default for StatusPG {
    fn default() -> (r: Self)
        ensures
            r == StatusPG::Pending,
    {
        StatusPG::Pending
    }
}

/// The human-readable form of a storage-facing status.
pub open spec fn status_pg_display(s: StatusPG) -> Seq<char> {
    match s {
        StatusPG::Pending => "Pending"@,
        StatusPG::Accepted => "Accepted"@,
        StatusPG::WrongAnswer => "Wrong Answer"@,
        StatusPG::TimeLimitExceeded => "Time Limit Exceeded"@,
        StatusPG::RuntimeError => "Runtime Error"@,
        StatusPG::PartialPoints => "Partial Execution"@,
        StatusPG::CompilationError => "Compilation Error"@,
        StatusPG::UnknownError => "UnknownError"@,
    }
}

impl StatusPG {
    pub fn display_string(&self) -> (r: String)
        ensures
            r@ == status_pg_display(*self),
    {
        match self {
            StatusPG::Pending => String::from_str("Pending"),
            StatusPG::Accepted => String::from_str("Accepted"),
            StatusPG::WrongAnswer => String::from_str("Wrong Answer"),
            StatusPG::TimeLimitExceeded => String::from_str("Time Limit Exceeded"),
            StatusPG::RuntimeError => String::from_str("Runtime Error"),
            StatusPG::PartialPoints => String::from_str("Partial Execution"),
            StatusPG::CompilationError => String::from_str("Compilation Error"),
            StatusPG::UnknownError => String::from_str("UnknownError"),
        }
    }
}

} // verus!
