use std::time::{SystemTime, UNIX_EPOCH};

use rand::Rng;

use judge_core::codec::{ContestId, IdError, ProblemID, SubmissionId};
use judge_core::consts::{CONTEST_ID_BITS, PROBLEM_ID_BITS};
use judge_core::user::UserId;

#[test]
fn submission_id_is_being_generated_correctly() {
    let time: u64 = SystemTime::now()
        .duration_since(UNIX_EPOCH)
        .unwrap()
        .as_millis()
        .try_into()
        .unwrap();

    let user_id = uuid::Uuid::new_v4();
    let mut rng = rand::thread_rng();

    let max_limit: u32 = ((1u64 << PROBLEM_ID_BITS as u64) - 1).try_into().unwrap();
    let problem_id = ProblemID(rng.gen_range(1..max_limit));
    let contest_id = ContestId(
        rng.gen_range(1..(1u128 << CONTEST_ID_BITS))
            .try_into()
            .unwrap(),
    );
    let id = SubmissionId::new(
        time,
        &problem_id,
        Some(&contest_id),
        &UserId(user_id.as_u128()),
    );

    assert_eq!(problem_id.as_u32(), id.get_problem_id().unwrap().as_u32());
    assert_eq!(contest_id.as_u32(), id.get_contest_id().unwrap().as_u32());
    assert_eq!(time, id.get_timestamp().unwrap());
    let bytes: [u8; 16] = id.as_bit_vec().to_owned().to_bytes().try_into().unwrap();
    assert_eq!(id.as_u128(), u128::from_be_bytes(bytes));
}

#[test]
fn round_trip_recovers_every_field() {
    let user = UserId(0xdead_beef_cafe_f00d_1234_5678_9abc_def0u128);
    let id = SubmissionId::new(
        0x1ff_ffff_ffff,
        &ProblemID(0xffff_ffff),
        Some(&ContestId(0xffff_ffff)),
        &user,
    );
    assert_eq!(id.get_timestamp().unwrap(), 0x1ff_ffff_ffff);
    assert_eq!(id.get_contest_id().unwrap().as_u32(), 0xffff_ffff);
    assert_eq!(id.get_problem_id().unwrap().as_u32(), 0xffff_ffff);
}

#[test]
fn packed_layout_is_exact() {
    // timestamp 1, contest 2, problem 3, entropy from a known user id.
    let user = UserId(0xabcdu128 << 80);
    let id = SubmissionId::new(1, &ProblemID(3), Some(&ContestId(2)), &user);
    let expected: u128 = (1u128 << 87) | (2u128 << 55) | (3u128 << 23) | (0xabcdu128 << 7);
    assert_eq!(id.as_u128(), expected);
}

#[test]
fn no_contest_encodes_contest_zero() {
    let user = UserId(uuid::Uuid::new_v4().as_u128());
    let id = SubmissionId::new(1_700_000_000_000, &ProblemID(42), None, &user);
    assert_eq!(id.get_contest_id().unwrap().as_u32(), 0);
    assert_eq!(id.get_problem_id().unwrap().as_u32(), 42);
}

#[test]
fn differing_fields_differ_only_in_their_own_bits() {
    let user = UserId(7u128 << 80);
    let t: u64 = 123_456_789;
    let a = SubmissionId::new(t, &ProblemID(10), Some(&ContestId(77)), &user).as_u128();
    let b = SubmissionId::new(t, &ProblemID(11), Some(&ContestId(78)), &user).as_u128();
    let contest_mask: u128 = 0xffff_ffffu128 << 55;
    let problem_mask: u128 = 0xffff_ffffu128 << 23;
    let diff = a ^ b;
    assert_eq!(diff & !(contest_mask | problem_mask), 0);
    assert_ne!(diff & contest_mask, 0);
    assert_ne!(diff & problem_mask, 0);

    let c = SubmissionId::new(t, &ProblemID(10), Some(&ContestId(78)), &user).as_u128();
    let diff_contest_only = a ^ c;
    assert_eq!(diff_contest_only & problem_mask, 0);
    assert_ne!(diff_contest_only & contest_mask, 0);
}

#[test]
fn timestamp_is_truncated_to_41_bits() {
    let user = UserId(0);
    let over: u64 = (1u64 << 41) | 99; // one bit past the field
    let id = SubmissionId::new(over, &ProblemID(1), None, &user);
    assert_eq!(id.get_timestamp().unwrap(), 99);
}

#[test]
fn string_form_round_trips() {
    let user = UserId(uuid::Uuid::new_v4().as_u128());
    let id = SubmissionId::new(1_700_000_000_000, &ProblemID(5), Some(&ContestId(9)), &user);
    let s = id.to_decimal_string();
    let back = SubmissionId::from_string(&s).unwrap();
    assert_eq!(back.as_u128(), id.as_u128());
}

#[test]
fn string_form_boundary_is_rejected() {
    // 2^128 itself does not fit.
    let r = SubmissionId::from_string("340282366920938463463374607431768211456");
    assert_eq!(r, Err(IdError::MalformedIdentifier));
    // 2^128 - 1 is the largest accepted value.
    let max = SubmissionId::from_string("340282366920938463463374607431768211455").unwrap();
    assert_eq!(max.as_u128(), u128::MAX);
}

#[test]
fn string_form_rejects_non_numerals() {
    assert!(SubmissionId::from_string("").is_err());
    assert!(SubmissionId::from_string("+").is_err());
    assert!(SubmissionId::from_string("12a").is_err());
    assert!(SubmissionId::from_string("-5").is_err());
    assert!(SubmissionId::from_string(" 5").is_err());
    assert_eq!(SubmissionId::from_string("+17").unwrap().as_u128(), 17);
    assert_eq!(SubmissionId::from_string("0").unwrap().as_u128(), 0);
    assert_eq!(SubmissionId::from_string("007").unwrap().as_u128(), 7);
}

#[test]
fn decimal_string_is_canonical() {
    assert_eq!(SubmissionId::from_u128(0).to_decimal_string(), "0");
    assert_eq!(
        SubmissionId::from_u128(1234567890).to_decimal_string(),
        "1234567890"
    );
    assert_eq!(
        SubmissionId::from_u128(u128::MAX).to_decimal_string(),
        "340282366920938463463374607431768211455"
    );
}

#[test]
fn bit_views_project_single_fields() {
    let user = UserId(0);
    let id = SubmissionId::new(3, &ProblemID(0xf0f0), Some(&ContestId(0x1234)), &user);
    let v = id.as_u128();

    let full: [u8; 16] = id.as_bit_vec().to_bytes().try_into().unwrap();
    assert_eq!(u128::from_be_bytes(full), v);

    let contest: [u8; 16] = id.get_contest_id_as_bit_vec().to_bytes().try_into().unwrap();
    assert_eq!(
        u128::from_be_bytes(contest),
        v & (0xffff_ffffu128 << 55)
    );
    assert_eq!(u128::from_be_bytes(contest) >> 55, 0x1234);

    let problem: [u8; 16] = id.get_problem_id_as_bit_vec().to_bytes().try_into().unwrap();
    assert_eq!(
        u128::from_be_bytes(problem),
        v & (0xffff_ffffu128 << 23)
    );
    assert_eq!(u128::from_be_bytes(problem) >> 23, 0xf0f0);
}

#[test]
fn problem_id_bit_view_is_shifted_into_place() {
    let p = ProblemID(0xdead);
    let bytes: [u8; 16] = p.as_submission_id_bit_vec().to_bytes().try_into().unwrap();
    assert_eq!(u128::from_be_bytes(bytes), 0xdeadu128 << 23);
}

#[test]
fn from_bitvec_round_trips_and_checks_length() {
    let user = UserId(uuid::Uuid::new_v4().as_u128());
    let id = SubmissionId::new(1_600_000_000_000, &ProblemID(8), Some(&ContestId(4)), &user);
    let back = SubmissionId::from_bitvec(id.as_bit_vec()).unwrap();
    assert_eq!(back.as_u128(), id.as_u128());

    let short = bit_vec::BitVec::from_elem(64, false);
    assert_eq!(
        SubmissionId::from_bitvec(short),
        Err(IdError::MalformedIdentifier)
    );
    let long = bit_vec::BitVec::from_elem(136, false);
    assert!(SubmissionId::from_bitvec(long).is_err());
}

#[test]
fn from_u128_keeps_the_value() {
    let id = SubmissionId::from_u128(12345);
    assert_eq!(id.as_u128(), 12345);
    assert_eq!(u128::from(ContestId(7)), 7);
    assert_eq!(u128::from(&ContestId(8)), 8);
    assert_eq!(u128::from(&ProblemID(9)), 9);
    assert_eq!(ProblemID::new(6).as_u32(), 6);
    assert_eq!(SubmissionId::default().as_u128(), 0);
    assert_eq!(ContestId::default().as_u32(), 0);
    assert_eq!(ProblemID::default().as_u32(), 0);
}
