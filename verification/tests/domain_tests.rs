use judge_core::codec::{ContestId, ProblemID, SubmissionId};
use judge_core::contest::{Contest, ContestBody, ContestState, ContestType, Language};
use judge_core::problem::{validate_limits, ProblemForm, ProblemBody, ValidationError, ValidationType};
use judge_core::relations::{Relations, Resource};
use judge_core::user::{SafeUser, User, UserId};

#[test]
fn language_parses_every_wire_name() {
    assert_eq!(Language::try_from_string("python3"), Ok(Language::Python3));
    assert_eq!(Language::try_from_string("cpp14"), Ok(Language::Cpp14));
    assert_eq!(Language::try_from_string("cpp11"), Ok(Language::Cpp11));
    assert_eq!(Language::try_from_string("cpp17"), Ok(Language::Cpp17));
    assert_eq!(Language::try_from_string("java"), Ok(Language::Java));
    assert_eq!(Language::try_from_string("cmp"), Ok(Language::Cmp));
    assert_eq!(Language::try_from_string("c"), Ok(Language::C));
    assert_eq!(
        Language::try_from_string("fortran"),
        Err("Invalid option")
    );
    assert_eq!(Language::try_from_string(""), Err("Invalid option"));
}

#[test]
fn language_displays_its_wire_name() {
    assert_eq!(Language::Java.display_string(), "java");
    assert_eq!(Language::Python3.display_string(), "python3");
    assert_eq!(Language::Cpp14.display_string(), "cpp14");
    assert_eq!(Language::Cpp11.display_string(), "cpp11");
    assert_eq!(Language::Cpp17.display_string(), "cpp17");
    assert_eq!(Language::Cmp.display_string(), "cmp");
    assert_eq!(Language::C.display_string(), "c");
}

#[test]
fn limits_are_validated_memory_first() {
    assert_eq!(validate_limits(256, 1), Ok(()));
    assert_eq!(validate_limits(512, 10), Ok(()));
    assert_eq!(
        validate_limits(255, 5),
        Err(ValidationError::MemoryLimitOutOfRange)
    );
    assert_eq!(
        validate_limits(513, 5),
        Err(ValidationError::MemoryLimitOutOfRange)
    );
    assert_eq!(
        validate_limits(300, 0),
        Err(ValidationError::TimeLimitOutOfRange)
    );
    assert_eq!(
        validate_limits(300, 11),
        Err(ValidationError::TimeLimitOutOfRange)
    );
    // both out of range: memory is reported
    assert_eq!(
        validate_limits(0, 0),
        Err(ValidationError::MemoryLimitOutOfRange)
    );

    let form = ProblemForm {
        body: ProblemBody {
            information: String::new(),
            identifier: None,
            name: "sum".to_string(),
            input: String::new(),
            output: String::new(),
            problem: String::new(),
            note: None,
        },
        checker: None,
        validation: ValidationType::default(),
        memory_limit: 256,
        time_limit: 2,
        is_public: true,
    };
    assert_eq!(form.validate(), Ok(()));
}

#[test]
fn validation_type_defaults_to_literal_checker() {
    assert_eq!(ValidationType::default(), ValidationType::LiteralChecker);
    assert_eq!(ContestType::default(), ContestType::ICPC);
}

#[test]
fn contest_status_follows_the_clock() {
    let contest = Contest {
        id: ContestId(1),
        author: UserId(9),
        body: ContestBody {
            information: String::new(),
            rules: String::new(),
            sponsor: String::new(),
        },
        name: "finals".to_string(),
        start_date: 1_000,
        end_date: 2_000,
        contest_type: ContestType::ICPC,
        problems: vec![ProblemID(1)],
        is_frozen: false,
        frozen_time: 0,
    };
    assert_eq!(contest.status(999), ContestState::NotStarted);
    assert_eq!(contest.status(1_000), ContestState::Running);
    assert_eq!(contest.status(1_999), ContestState::Running);
    assert_eq!(contest.status(2_000), ContestState::Ended);
}

#[test]
fn contest_body_reads_json_objects() {
    let mut map = serde_json::Map::new();
    map.insert(
        "information".to_string(),
        serde_json::Value::String("info".to_string()),
    );
    map.insert(
        "rules".to_string(),
        serde_json::Value::String("be kind".to_string()),
    );
    map.insert("sponsor".to_string(), serde_json::Value::Bool(true));
    let value = serde_json::Value::Object(map);
    let body = ContestBody::from_json(&value).unwrap();
    assert_eq!(body.information, "info");
    assert_eq!(body.rules, "be kind");
    // present but not a string: reads as empty, like an absent field
    assert_eq!(body.sponsor, "");

    let not_object = serde_json::Value::String("x".to_string());
    assert!(ContestBody::from_json(&not_object).is_none());
}

#[test]
fn safe_user_drops_the_credential_hash() {
    let user = User {
        user_id: UserId(77),
        email: "a@b.c".to_string(),
        username: "ada".to_string(),
        password_hash: "not-a-real-hash".to_string(),
        is_validated: true,
        github: Some("ada".to_string()),
        website: None,
        bio: Some("hi".to_string()),
        first_name: Some("Ada".to_string()),
        last_name: None,
    };
    let safe = SafeUser::from(user);
    assert_eq!(safe.user_id, UserId(77));
    assert_eq!(safe.email, "a@b.c");
    assert_eq!(safe.username, "ada");
    assert!(safe.is_validated);
    assert_eq!(safe.github.as_deref(), Some("ada"));
    assert_eq!(safe.website, None);
    assert_eq!(safe.bio.as_deref(), Some("hi"));
    assert_eq!(safe.first_name.as_deref(), Some("Ada"));
    assert_eq!(safe.last_name, None);
}

#[test]
fn user_id_prints_the_hyphenated_form() {
    let raw: u128 = 0xa1a2a3a4_b1b2_c1c2_d1d2_d3d4d5d6d7d8u128;
    let ours = UserId(raw).hyphenated_string();
    let theirs = uuid::Uuid::from_u128(raw).hyphenated().to_string();
    assert_eq!(ours, theirs);
    assert_eq!(ours, "a1a2a3a4-b1b2-c1c2-d1d2-d3d4d5d6d7d8");

    let random = uuid::Uuid::new_v4();
    assert_eq!(
        UserId(random.as_u128()).hyphenated_string(),
        random.hyphenated().to_string()
    );
}

#[test]
fn user_id_exposes_its_time_mid_bits() {
    let u = uuid::Uuid::new_v4();
    let (_, time_mid, _, _) = u.as_fields();
    assert_eq!(UserId(u.as_u128()).time_mid(), time_mid);
}

#[test]
fn resources_display_with_their_tags() {
    assert_eq!(
        Resource::Contest(ContestId(5)).display_string(),
        "problem:5"
    );
    assert_eq!(
        Resource::Problem(ProblemID(12)).display_string(),
        "contest:12"
    );
    assert_eq!(
        Resource::Submission(SubmissionId::from_u128(99)).display_string(),
        "submission:99"
    );
    assert_eq!(
        Resource::User(UserId(0)).display_string(),
        "user:00000000-0000-0000-0000-000000000000"
    );
}

#[test]
fn relations_display_their_names() {
    assert_eq!(Relations::Participant.display_string(), "Participant");
    assert_eq!(Relations::Owner.display_string(), "Owner");
    assert_eq!(
        Relations::ProblemSetter.display_string(),
        "Problem Setter"
    );
    assert_eq!(Relations::Member.display_string(), "Member");
    assert_eq!(Relations::Admin.display_string(), "Admin");
}
