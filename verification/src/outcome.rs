use vstd::prelude::*;
use crate::error::ApplicationError;

verus! {

/// Spec-level outcome of operation A: the returned text, or the error.
pub type Op1Outcome = Result<Seq<char>, ApplicationError>;

/// Spec-level outcome of operation B: the optional text, or the error.
pub type Op2Outcome = Result<Option<Seq<char>>, ApplicationError>;

/// Spec-level outcome of a whole invocation: the pair of both operations'
/// values, or the error the invocation is reported with.
pub type InvocationOutcome = Result<(Seq<char>, Option<Seq<char>>), ApplicationError>;

/// The executable optional string carries exactly the modeled text.
pub open spec fn opt_string_matches(v: Option<String>, m: Option<Seq<char>>) -> bool {
    match (v, m) {
        (Option::Some(s), Option::Some(ms)) => s@ == ms,
        (Option::None, Option::None) => true,
        _ => false,
    }
}

/// The executable result of operation A carries exactly the modeled outcome.
pub open spec fn op1_result_matches(r: Result<String, ApplicationError>, m: Op1Outcome) -> bool {
    match (r, m) {
        (Result::Ok(s), Result::Ok(ms)) => s@ == ms,
        (Result::Err(e), Result::Err(me)) => e == me,
        _ => false,
    }
}

/// The executable result of operation B carries exactly the modeled outcome.
pub open spec fn op2_result_matches(
    r: Result<Option<String>, ApplicationError>,
    m: Op2Outcome,
) -> bool {
    match (r, m) {
        (Result::Ok(v), Result::Ok(mv)) => opt_string_matches(v, mv),
        (Result::Err(e), Result::Err(me)) => e == me,
        _ => false,
    }
}

/// The executable result of a whole invocation carries exactly the modeled
/// outcome.
pub open spec fn invocation_result_matches(
    r: Result<(String, Option<String>), ApplicationError>,
    m: InvocationOutcome,
) -> bool {
    match (r, m) {
        (Result::Ok(p), Result::Ok(mp)) => p.0@ == mp.0 && opt_string_matches(p.1, mp.1),
        (Result::Err(e), Result::Err(me)) => e == me,
        _ => false,
    }
}

/// Two optional strings agree: both absent, or both present with the same
/// text.
pub open spec fn opt_strings_agree(a: Option<String>, b: Option<String>) -> bool {
    match (a, b) {
        (Option::Some(x), Option::Some(y)) => x@ == y@,
        (Option::None, Option::None) => true,
        _ => false,
    }
}

/// Two invocation results agree: both succeed with the same text values,
/// or both fail with the same error.
pub open spec fn invocation_results_agree(
    a: Result<(String, Option<String>), ApplicationError>,
    b: Result<(String, Option<String>), ApplicationError>,
) -> bool {
    match (a, b) {
        (Result::Ok(p), Result::Ok(q)) => p.0@ == q.0@ && opt_strings_agree(p.1, q.1),
        (Result::Err(e), Result::Err(f)) => e == f,
        _ => false,
    }
}

/// Fan-in policy: how the pair of per-operation outcomes becomes the
/// invocation's outcome.
///
/// Both operations always run to completion; only the reporting is
/// collapsed here. When both succeed, the invocation succeeds with the pair
/// of values. When any operation fails, the invocation fails with the
/// first-observed error, operation A's outcome being observed first. A
/// second failure is not merged into the reported error; the surrounding
/// runtime logs both outcomes before collapsing them.
pub open spec fn combined_outcome(a: Op1Outcome, b: Op2Outcome) -> InvocationOutcome {
    match a {
        Result::Err(e) => Result::Err(e),
        Result::Ok(va) => match b {
            Result::Err(e) => Result::Err(e),
            Result::Ok(vb) => Result::Ok((va, vb)),
        },
    }
}

/// Law: the fan-in policy never invents an outcome. The invocation succeeds
/// if and only if both operations succeeded, and then carries both values
/// unchanged; otherwise it fails with the first-observed error.
pub proof fn lemma_first_failure_reported(a: Op1Outcome, b: Op2Outcome)
    ensures
        a is Err ==> combined_outcome(a, b) == Result::<
            (Seq<char>, Option<Seq<char>>),
            ApplicationError,
        >::Err(a->Err_0),
        a is Ok && b is Err ==> combined_outcome(a, b) == Result::<
            (Seq<char>, Option<Seq<char>>),
            ApplicationError,
        >::Err(b->Err_0),
        a is Ok && b is Ok ==> combined_outcome(a, b) == Result::<
            (Seq<char>, Option<Seq<char>>),
            ApplicationError,
        >::Ok((a->Ok_0, b->Ok_0)),
        combined_outcome(a, b) is Ok <==> (a is Ok && b is Ok),
{
}

} // verus!
