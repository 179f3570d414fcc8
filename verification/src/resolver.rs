use vstd::prelude::*;

use crate::problem::TestCaseResult;
use crate::status::Status;
use crate::strutil::{lemma_lex_lt_trans, lemma_lex_lt_trichotomy, lex_lt, str_lt};

verus! {

/// Rank of an in-run outcome in the severity order
/// `Accepted < PartialPoints < WrongAnswer < TimeLimitExceeded < RuntimeError`
/// (ascending = worse). `Pending`, `CompilationError` and
/// `UnknownError` are deliberately outside the order: the first two
/// never reach the scan, and the third marks an upstream defect.
pub open spec fn precedence_spec(s: Status) -> Option<i32> {
    match s {
        Status::Accepted => Some(0i32),
        Status::PartialPoints => Some(1i32),
        Status::WrongAnswer => Some(2i32),
        Status::TimeLimitExceeded => Some(3i32),
        Status::RuntimeError => Some(4i32),
        _ => None,
    }
}

/// The rank as a total map, `-1` standing for "not ranked".
pub open spec fn rank_of(s: Status) -> int {
    match precedence_spec(s) {
        Some(v) => v as int,
        None => -1,
    }
}

/// The precedence table as an executable lookup.
pub fn status_precedence(s: &Status) -> (r: Option<i32>)
    ensures
        r == precedence_spec(*s),
{
    match s {
        Status::Accepted => Some(0),
        Status::PartialPoints => Some(1),
        Status::WrongAnswer => Some(2),
        Status::TimeLimitExceeded => Some(3),
        Status::RuntimeError => Some(4),
        _ => None,
    }
}

/// Two ranked statuses with equal rank are the same status.
pub proof fn lemma_rank_injective(a: Status, b: Status)
    requires
        precedence_spec(a) is Some,
        precedence_spec(b) is Some,
        rank_of(a) == rank_of(b),
    ensures
        a == b,
{
}

/// Every test case carries a ranked status.
pub open spec fn all_ranked(cases: Seq<TestCaseResult>) -> bool {
    forall|i: int| 0 <= i < cases.len() ==> precedence_spec(#[trigger] cases[i].status) is Some
}

/// The position of the first unranked status.
pub open spec fn first_unranked(cases: Seq<TestCaseResult>) -> int
    decreases cases.len(),
{
    if cases.len() == 0 {
        0
    } else if precedence_spec(cases[0].status) is None {
        0
    } else {
        1 + first_unranked(cases.drop_first())
    }
}

/// The most severe status of the sequence; `Accepted` when empty, and
/// a later entry displaces an earlier one only when strictly worse.
pub open spec fn worst_status(cases: Seq<TestCaseResult>) -> Status
    decreases cases.len(),
{
    if cases.len() == 0 {
        Status::Accepted
    } else {
        let prefix = worst_status(cases.drop_last());
        if rank_of(cases.last().status) > rank_of(prefix) {
            cases.last().status
        } else {
            prefix
        }
    }
}

/// Index `i` names the representative worst test case: its rank is
/// maximal, its id is least among the worst-ranked, and it is the
/// first entry carrying that id among them.
pub open spec fn is_selected(cases: Seq<TestCaseResult>, i: int) -> bool {
    &&& 0 <= i < cases.len()
    &&& forall|j: int|
        0 <= j < cases.len() ==> rank_of(#[trigger] cases[j].status) <= rank_of(cases[i].status)
    &&& forall|j: int|
        0 <= j < cases.len() && rank_of(#[trigger] cases[j].status) == rank_of(cases[i].status)
            ==> !lex_lt(cases[j].id@, cases[i].id@)
    &&& forall|j: int|
        0 <= j < i ==> !(rank_of(#[trigger] cases[j].status) == rank_of(cases[i].status)
            && cases[j].id@ == cases[i].id@)
}

/// The resolver met a status outside its expected vocabulary: an
/// upstream contract breach, surfaced rather than swallowed.
#[derive(Debug, Clone, PartialEq, Eq)]
pub enum ResolveError {
    InconsistentStatus { index: usize },
}

/// What the resolver owes: compile failure short-circuits to
/// `CompilationError`; an unranked status in the scan is surfaced as
/// an error naming the first such position; an empty list passes
/// vacuously as `Accepted`; otherwise the most severe status wins.
pub open spec fn reduce_spec(prepare_failed: bool, cases: Seq<TestCaseResult>) -> Result<
    Status,
    ResolveError,
> {
    if prepare_failed {
        Ok(Status::CompilationError)
    } else if !all_ranked(cases) {
        Err(ResolveError::InconsistentStatus { index: first_unranked(cases) as usize })
    } else {
        Ok(worst_status(cases))
    }
}

proof fn lemma_first_unranked_at(cases: Seq<TestCaseResult>, i: int)
    requires
        0 <= i < cases.len(),
        precedence_spec(cases[i].status) is None,
        forall|j: int| 0 <= j < i ==> precedence_spec(#[trigger] cases[j].status) is Some,
    ensures
        first_unranked(cases) == i,
    decreases i,
{
    if i == 0 {
    } else {
        assert forall|j: int| 0 <= j < i - 1 implies precedence_spec(
            #[trigger] cases.drop_first()[j].status,
        ) is Some by {
            assert(cases.drop_first()[j] == cases[j + 1]);
        }
        assert(cases.drop_first()[i - 1] == cases[i]);
        lemma_first_unranked_at(cases.drop_first(), i - 1);
    }
}

/// The worst status is attained by some test case and bounds every
/// rank in the sequence.
pub proof fn lemma_worst_status_props(cases: Seq<TestCaseResult>)
    requires
        cases.len() > 0,
        all_ranked(cases),
    ensures
        exists|k: int| 0 <= k < cases.len() && cases[k].status == worst_status(cases),
        forall|j: int|
            0 <= j < cases.len() ==> rank_of(#[trigger] cases[j].status) <= rank_of(
                worst_status(cases),
            ),
    decreases cases.len(),
{
    let prefix = cases.drop_last();
    let n = cases.len() - 1;
    if n == 0 {
        if rank_of(cases.last().status) > rank_of(worst_status(prefix)) {
            assert(cases[0].status == worst_status(cases));
        } else {
            assert(rank_of(cases[0].status) == 0);
            lemma_rank_injective(cases[0].status, Status::Accepted);
            assert(cases[0].status == worst_status(cases));
        }
    } else {
        assert(all_ranked(prefix)) by {
            assert forall|j: int| 0 <= j < prefix.len() implies precedence_spec(
                #[trigger] prefix[j].status,
            ) is Some by {
                assert(prefix[j] == cases[j]);
            }
        }
        lemma_worst_status_props(prefix);
        let k = choose|k: int| 0 <= k < prefix.len() && prefix[k].status == worst_status(prefix);
        assert(prefix[k] == cases[k]);
        if rank_of(cases.last().status) > rank_of(worst_status(prefix)) {
            assert(cases[n].status == worst_status(cases));
        } else {
            assert(cases[k].status == worst_status(cases));
        }
        assert forall|j: int| 0 <= j < cases.len() implies rank_of(#[trigger] cases[j].status)
            <= rank_of(worst_status(cases)) by {
            if j < n {
                assert(prefix[j] == cases[j]);
            }
        }
    }
}

/// A selected test case carries exactly the worst status.
pub proof fn lemma_selected_is_worst(cases: Seq<TestCaseResult>, i: int)
    requires
        all_ranked(cases),
        is_selected(cases, i),
    ensures
        cases[i].status == worst_status(cases),
{
    lemma_worst_status_props(cases);
    let k = choose|k: int| 0 <= k < cases.len() && cases[k].status == worst_status(cases);
    assert(rank_of(cases[k].status) <= rank_of(cases[i].status));
    assert(rank_of(cases[i].status) <= rank_of(worst_status(cases)));
    lemma_rank_injective(cases[i].status, worst_status(cases));
}

/// Tie-break determinism: the selected representative is unique.
pub proof fn lemma_selection_unique(cases: Seq<TestCaseResult>, i: int, j: int)
    requires
        is_selected(cases, i),
        is_selected(cases, j),
    ensures
        i == j,
{
    if i != j {
        assert(rank_of(cases[i].status) == rank_of(cases[j].status));
        assert(!lex_lt(cases[i].id@, cases[j].id@));
        assert(!lex_lt(cases[j].id@, cases[i].id@));
        lemma_lex_lt_trichotomy(cases[i].id@, cases[j].id@);
        assert(cases[i].id@ == cases[j].id@);
        if i < j {
            // i witnesses a violation of j's first-of-its-id clause
            assert(!(rank_of(cases[i].status) == rank_of(cases[j].status) && cases[i].id@
                == cases[j].id@));
        } else {
            assert(!(rank_of(cases[j].status) == rank_of(cases[i].status) && cases[j].id@
                == cases[i].id@));
        }
    }
}

/// Finds the representative worst test case: maximal rank, least id
/// among the worst, first among those sharing that id. `None` exactly
/// on an empty list; an unranked status is surfaced as an error.
pub fn representative_case(test_cases: &Vec<TestCaseResult>) -> (r: Result<
    Option<usize>,
    ResolveError,
>)
    ensures
        r matches Err(ResolveError::InconsistentStatus { index }) ==> !all_ranked(test_cases@)
            && index == first_unranked(test_cases@),
        r is Err ==> !all_ranked(test_cases@),
        r is Ok ==> all_ranked(test_cases@),
        r matches Ok(o) ==> ((o is None) <==> test_cases@.len() == 0),
        r matches Ok(Some(i)) ==> is_selected(test_cases@, i as int),
{
    let ghost cases = test_cases@;
    let n = test_cases.len();
    let mut best: usize = 0;
    let mut best_rank: i32 = -1;
    let mut have: bool = false;
    let mut i: usize = 0;
    while i < n
        invariant
            n == cases.len(),
            cases == test_cases@,
            i <= n,
            forall|j: int| 0 <= j < i ==> precedence_spec(#[trigger] cases[j].status) is Some,
            have <==> i > 0,
            have ==> best < i && is_selected(cases.take(i as int), best as int) && best_rank
                == rank_of(cases[best as int].status),
        decreases n - i,
    {
        let rank: i32 = match status_precedence(&test_cases[i].status) {
            Some(v) => v,
            None => {
                proof {
                    lemma_first_unranked_at(cases, i as int);
                }
                return Err(ResolveError::InconsistentStatus { index: i });
            },
        };
        let ghost prev = cases.take(i as int);
        let ghost next = cases.take(i as int + 1);
        proof {
            assert(next.drop_last() =~= prev);
            assert(next.last() == cases[i as int]);
            assert(forall|j: int| 0 <= j < i ==> #[trigger] next[j] == prev[j]);
        }
        if !have {
            have = true;
            best = i;
            best_rank = rank;
            proof {
                lemma_lex_lt_trichotomy(cases[i as int].id@, cases[i as int].id@);
                assert(is_selected(next, i as int));
            }
        } else {
            let ghost ob = best as int;
            if rank > best_rank {
                best = i;
                best_rank = rank;
                proof {
                    assert forall|j: int| 0 <= j < next.len() implies rank_of(
                        #[trigger] next[j].status,
                    ) <= rank_of(next[i as int].status) by {
                        if j < i {
                            assert(rank_of(prev[j].status) <= rank_of(prev[ob].status));
                        }
                    }
                    assert forall|j: int| 0 <= j < i as int implies !(rank_of(
                        #[trigger] next[j].status,
                    ) == rank_of(next[i as int].status) && next[j].id@ == next[i as int].id@) by {
                        assert(rank_of(prev[j].status) <= rank_of(prev[ob].status));
                    }
                    assert forall|j: int|
                        0 <= j < next.len() && rank_of(#[trigger] next[j].status) == rank_of(
                            next[i as int].status,
                        ) implies !lex_lt(next[j].id@, next[i as int].id@) by {
                        if j < i {
                            assert(rank_of(prev[j].status) <= rank_of(prev[ob].status));
                            assert(false);
                        } else {
                            lemma_lex_lt_trichotomy(next[j].id@, next[i as int].id@);
                        }
                    }
                    assert(is_selected(next, i as int));
                }
            } else if rank == best_rank && str_lt(
                test_cases[i].id.as_str(),
                test_cases[best].id.as_str(),
            ) {
                best = i;
                best_rank = rank;
                proof {
                    let nid = cases[i as int].id@;
                    let bid = cases[ob].id@;
                    assert(lex_lt(nid, bid));
                    assert forall|j: int|
                        0 <= j < next.len() && rank_of(#[trigger] next[j].status) == rank_of(
                            next[i as int].status,
                        ) implies !lex_lt(next[j].id@, next[i as int].id@) by {
                        if j < i {
                            assert(!lex_lt(prev[j].id@, bid));
                            lemma_lex_lt_trichotomy(prev[j].id@, bid);
                            if lex_lt(next[j].id@, nid) {
                                if prev[j].id@ == bid {
                                    lemma_lex_lt_trichotomy(nid, bid);
                                    assert(false);
                                } else {
                                    lemma_lex_lt_trans(next[j].id@, nid, bid);
                                    assert(false);
                                }
                            }
                        } else {
                            lemma_lex_lt_trichotomy(next[j].id@, next[i as int].id@);
                        }
                    }
                    assert forall|j: int|
                        0 <= j < i as int implies !(rank_of(#[trigger] next[j].status) == rank_of(
                        next[i as int].status,
                    ) && next[j].id@ == next[i as int].id@) by {
                        if rank_of(next[j].status) == rank_of(next[i as int].status) && next[j].id@
                            == next[i as int].id@ {
                            assert(!lex_lt(prev[j].id@, bid));
                            assert(lex_lt(next[j].id@, bid));
                            assert(false);
                        }
                    }
                    assert(is_selected(next, i as int));
                }
            } else {
                proof {
                    assert forall|j: int|
                        0 <= j < next.len() && rank_of(#[trigger] next[j].status) == rank_of(
                            next[ob].status,
                        ) implies !lex_lt(next[j].id@, next[ob].id@) by {
                        if j < i {
                            assert(!lex_lt(prev[j].id@, prev[ob].id@));
                        } else {
                            if rank == best_rank {
                                assert(!lex_lt(cases[i as int].id@, cases[ob].id@));
                            } else {
                                assert(rank_of(next[j].status) != rank_of(next[ob].status));
                            }
                        }
                    }
                    assert(is_selected(next, ob));
                }
            }
        }
        i += 1;
    }
    proof {
        assert(cases.take(n as int) =~= cases);
    }
    if have {
        Ok(Some(best))
    } else {
        Ok(None)
    }
}

/// Folds one submission's outcomes into its overall status, as
/// `reduce_spec` states: compile failure wins unconditionally, an
/// empty list passes vacuously, otherwise the most severe test-case
/// status is returned, and an unrecognized status is an error.
pub fn reduce(prepare_failed: bool, test_cases: &Vec<TestCaseResult>) -> (r: Result<
    Status,
    ResolveError,
>)
    ensures
        r == reduce_spec(prepare_failed, test_cases@),
{
    if prepare_failed {
        return Ok(Status::CompilationError);
    }
    match representative_case(test_cases) {
        Err(e) => Err(e),
        Ok(None) => Ok(Status::Accepted),
        Ok(Some(i)) => {
            proof {
                lemma_selected_is_worst(test_cases@, i as int);
            }
            Ok(test_cases[i].status.clone())
        },
    }
}

/// Compile short-circuit: a failed prepare phase yields
/// `CompilationError` whatever the test cases hold.
pub proof fn lemma_compile_short_circuit(cases: Seq<TestCaseResult>)
    ensures
        reduce_spec(true, cases) == Ok::<Status, ResolveError>(Status::CompilationError),
{
}

/// Determinism: resolving the same inputs twice gives the same
/// overall status, and the same representative under a tie is forced
/// by `lemma_selection_unique`.
pub proof fn lemma_reduce_deterministic(
    p1: bool,
    c1: Seq<TestCaseResult>,
    p2: bool,
    c2: Seq<TestCaseResult>,
)
    requires
        p1 == p2,
        c1 == c2,
    ensures
        reduce_spec(p1, c1) == reduce_spec(p2, c2),
{
}

} // verus!
