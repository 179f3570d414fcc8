use vstd::prelude::*;
use vstd::string::StringExecFns;

use crate::codec::{ContestId, ProblemID, SubmissionId};
use crate::json::{json_as_str, json_get, json_is_object};
use crate::strutil::str_eq;
use crate::user::UserId;

verus! {

broadcast use vstd::string::group_string_axioms;

#[derive(Debug, Clone, Hash, PartialEq, Eq, Structural)]
pub enum Language {
    Python3,
    Java,
    Cpp11,
    Cpp17,
    Cpp14,
    Cmp,
    C,
}

/// The wire name of each language.
pub open spec fn language_name(l: Language) -> Seq<char> {
    match l {
        Language::Java => "java"@,
        Language::Python3 => "python3"@,
        Language::Cpp14 => "cpp14"@,
        Language::Cpp11 => "cpp11"@,
        Language::Cpp17 => "cpp17"@,
        Language::Cmp => "cmp"@,
        Language::C => "c"@,
    }
}

impl Language {
    /// Reads a language from its wire name; any other string is
    /// refused.
    pub fn try_from_string(value: &str) -> (r: Result<Language, &'static str>)
        ensures
            value@ == "python3"@ ==> r == Ok::<Language, &'static str>(Language::Python3),
            value@ == "cpp14"@ ==> r == Ok::<Language, &'static str>(Language::Cpp14),
            value@ == "cpp11"@ ==> r == Ok::<Language, &'static str>(Language::Cpp11),
            value@ == "cpp17"@ ==> r == Ok::<Language, &'static str>(Language::Cpp17),
            value@ == "java"@ ==> r == Ok::<Language, &'static str>(Language::Java),
            value@ == "cmp"@ ==> r == Ok::<Language, &'static str>(Language::Cmp),
            value@ == "c"@ ==> r == Ok::<Language, &'static str>(Language::C),
            !(value@ == "python3"@ || value@ == "cpp14"@ || value@ == "cpp11"@ || value@
                == "cpp17"@ || value@ == "java"@ || value@ == "cmp"@ || value@ == "c"@) ==> (r
                matches Err(e) && e@ == "Invalid option"@),
    {
        proof {
            reveal_strlit("python3");
            reveal_strlit("cpp14");
            reveal_strlit("cpp11");
            reveal_strlit("cpp17");
            reveal_strlit("java");
            reveal_strlit("cmp");
            reveal_strlit("c");
            assert("python3"@.len() == 7 && "java"@.len() == 4 && "cmp"@.len() == 3 && "c"@.len()
                == 1);
            assert("cpp14"@.len() == 5 && "cpp11"@.len() == 5 && "cpp17"@.len() == 5);
            assert("cpp14"@[4] == '4' && "cpp11"@[4] == '1' && "cpp17"@[4] == '7');
            assert("cpp14"@ != "cpp11"@ && "cpp14"@ != "cpp17"@ && "cpp11"@ != "cpp17"@);
        }
        if str_eq(value, "python3") {
            Ok(Language::Python3)
        } else if str_eq(value, "cpp14") {
            Ok(Language::Cpp14)
        } else if str_eq(value, "cpp11") {
            Ok(Language::Cpp11)
        } else if str_eq(value, "cpp17") {
            Ok(Language::Cpp17)
        } else if str_eq(value, "java") {
            Ok(Language::Java)
        } else if str_eq(value, "cmp") {
            Ok(Language::Cmp)
        } else if str_eq(value, "c") {
            Ok(Language::C)
        } else {
            Err("Invalid option")
        }
    }

    /// The wire name, as the display layer prints it.
    pub fn display_string(&self) -> (r: String)
        ensures
            r@ == language_name(*self),
    {
        match self {
            Language::Java => String::from_str("java"),
            Language::Python3 => String::from_str("python3"),
            Language::Cpp14 => String::from_str("cpp14"),
            Language::Cpp11 => String::from_str("cpp11"),
            Language::Cpp17 => String::from_str("cpp17"),
            Language::Cmp => String::from_str("cmp"),
            Language::C => String::from_str("c"),
        }
    }
}

/// One submission as it travels from intake to judging.
#[derive(Debug, Clone)]
pub struct Submission {
    pub problem_id: ProblemID,
    pub user_id: UserId,
    pub contest_id: Option<ContestId>,
    pub language: Language,
    pub code: Vec<u8>,
    pub id: SubmissionId,
}

#[derive(Debug, Clone)]
pub struct ContestBody {
    pub information: String,
    pub rules: String,
    pub sponsor: String,
}

/// An absent field reads as the empty string.
pub fn field_or_default(o: Option<String>) -> (r: String)
    ensures
        o matches Some(s) ==> r == s,
        o is None ==> r@ == Seq::<char>::empty(),
{
    match o {
        Some(s) => s,
        None => String::new(),
    }
}

fn json_field_string(value: &serde_json::Value, key: &str) -> Option<String> {
    match json_get(value, key) {
        Some(v) => json_as_str(v),
        None => None,
    }
}

impl ContestBody {
    /// Reads the three fields out of a JSON object; a field that is
    /// absent or not a string reads as empty. `None` when the value
    /// is not an object at all.
    pub fn from_json(value: &serde_json::Value) -> Option<ContestBody> {
        if !json_is_object(value) {
            return None;
        }
        Some(
            ContestBody {
                information: field_or_default(json_field_string(value, "information")),
                rules: field_or_default(json_field_string(value, "rules")),
                sponsor: field_or_default(json_field_string(value, "sponsor")),
            },
        )
    }
}

#[derive(Debug, Clone, PartialEq, Eq, Structural)]
pub enum ContestType {
    ICPC,
}

impl Default for ContestType {
    fn default() -> (r: Self)
        ensures
            r == ContestType::ICPC,
    {
        ContestType::ICPC
    }
}

#[derive(Debug, Clone, PartialEq, Eq, Structural)]
pub enum ContestState {
    NotStarted,
    Running,
    Ended,
}

/// Where a contest stands at the given wall-clock time.
pub open spec fn contest_state_at(start_date: i64, end_date: i64, now: i64) -> ContestState {
    if now < start_date {
        ContestState::NotStarted
    } else if now < end_date {
        ContestState::Running
    } else {
        ContestState::Ended
    }
}

/// A contest with its schedule, held as milliseconds since the Unix
/// epoch.
#[derive(Debug, Clone)]
pub struct Contest {
    pub id: ContestId,
    pub author: UserId,
    pub body: ContestBody,
    pub name: String,
    pub start_date: i64,
    pub end_date: i64,
    pub contest_type: ContestType,
    pub problems: Vec<ProblemID>,
    pub is_frozen: bool,
    pub frozen_time: i32,
}

impl Contest {
    /// Classifies the contest against the given wall-clock time; the
    /// caller samples the clock and hands the time in.
    pub fn status(&self, now: i64) -> (r: ContestState)
        ensures
            r == contest_state_at(self.start_date, self.end_date, now),
    {
        if now < self.start_date {
            ContestState::NotStarted
        } else if now < self.end_date {
            ContestState::Running
        } else {
            ContestState::Ended
        }
    }
}

} // verus!
