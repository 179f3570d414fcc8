use vstd::prelude::*;
use vstd::string::StringExecFns;

use crate::codec::{ContestId, ProblemID, SubmissionId};
use crate::numstr::{dec_chars, u128_to_decimal};
use crate::user::{uuid_chars, UserId};

verus! {

broadcast use vstd::string::group_string_axioms;

/// How an account stands to a resource.
#[derive(Debug, Clone, Hash, PartialEq, Eq, Structural)]
pub enum Relations {
    Participant,
    Owner,
    ProblemSetter,
    Member,
    Admin,
}

/// The human-readable form of a relation.
pub open spec fn relations_display(r: Relations) -> Seq<char> {
    match r {
        Relations::Participant => "Participant"@,
        Relations::Owner => "Owner"@,
        Relations::ProblemSetter => "Problem Setter"@,
        Relations::Member => "Member"@,
        Relations::Admin => "Admin"@,
    }
}

impl Relations {
    pub fn display_string(&self) -> (r: String)
        ensures
            r@ == relations_display(*self),
    {
        match self {
            Relations::Participant => String::from_str("Participant"),
            Relations::Owner => String::from_str("Owner"),
            Relations::ProblemSetter => String::from_str("Problem Setter"),
            Relations::Member => String::from_str("Member"),
            Relations::Admin => String::from_str("Admin"),
        }
    }
}

/// One of the things a relation can hold of.
pub enum Resource {
    Contest(ContestId),
    Problem(ProblemID),
    Submission(SubmissionId),
    User(UserId),
}

/// The tagged textual form of a resource reference.
pub open spec fn resource_display(r: Resource) -> Seq<char> {
    match r {
        Resource::Contest(id) => "problem:"@ + dec_chars(id@ as int),
        Resource::Problem(id) => "contest:"@ + dec_chars(id@ as int),
        Resource::Submission(id) => "submission:"@ + dec_chars(id@ as int),
        Resource::User(id) => "user:"@ + uuid_chars(id@),
    }
}

impl Resource {
    pub fn display_string(&self) -> (r: String)
        ensures
            r@ == resource_display(*self),
    {
        match self {
            Resource::Contest(id) => {
                let mut s = String::from_str("problem:");
                let num = u128_to_decimal(id.as_u32() as u128);
                s.append(num.as_str());
                s
            },
            Resource::Problem(id) => {
                let mut s = String::from_str("contest:");
                let num = u128_to_decimal(id.as_u32() as u128);
                s.append(num.as_str());
                s
            },
            Resource::Submission(id) => {
                let mut s = String::from_str("submission:");
                let num = u128_to_decimal(id.as_u128());
                s.append(num.as_str());
                s
            },
            Resource::User(id) => {
                let mut s = String::from_str("user:");
                let hex = id.hyphenated_string();
                s.append(hex.as_str());
                s
            },
        }
    }
}

} // verus!
