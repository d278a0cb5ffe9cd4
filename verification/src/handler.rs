use vstd::prelude::*;
use crate::dispatch::AppInitialisation;
use crate::error::ApplicationError;
use crate::outcome::{
    combined_outcome, invocation_result_matches, invocation_results_agree, op1_result_matches,
    op2_result_matches,
};

verus! {

/// Fan-out: issues both capability calls, each exactly once, and hands the
/// pair of outcomes on unchanged. A failure on one side neither skips nor
/// cancels the other: both components of the pair are always produced.
///
/// The asynchronous front end runs the same two calls concurrently and
/// joins them; the join point observes exactly this pair.
pub fn dispatch_operations<T: AppInitialisation>(app_client: &T, something: &str) -> (r: (
    Result<String, ApplicationError>,
    Result<Option<String>, ApplicationError>,
))
    ensures
        op1_result_matches(r.0, app_client.op1_result(something@)),
        op2_result_matches(r.1, app_client.op2_result(something@)),
{
    let result1 = app_client.operation1(something);
    let result2 = app_client.operation2(something);
    (result1, result2)
}

/// Fan-in: collapses the joined pair of outcomes into the invocation's
/// outcome, following `combined_outcome`: success only when both succeeded,
/// otherwise the first-observed error (operation A's outcome first).
pub fn aggregate_outcomes(
    result1: Result<String, ApplicationError>,
    result2: Result<Option<String>, ApplicationError>,
) -> (r: Result<(String, Option<String>), ApplicationError>)
    ensures
        result1 is Err ==> r == Result::<(String, Option<String>), ApplicationError>::Err(
            result1->Err_0,
        ),
        result1 is Ok && result2 is Err ==> r == Result::<
            (String, Option<String>),
            ApplicationError,
        >::Err(result2->Err_0),
        result1 is Ok && result2 is Ok ==> r == Result::<
            (String, Option<String>),
            ApplicationError,
        >::Ok((result1->Ok_0, result2->Ok_0)),
{
    match result1 {
        Result::Err(e) => Result::Err(e),
        Result::Ok(value1) => match result2 {
            Result::Err(e) => Result::Err(e),
            Result::Ok(value2) => Result::Ok((value1, value2)),
        },
    }
}

/// The entry point invoked once per incoming event: fans out to both
/// operations, joins both outcomes, and reports the combined result.
///
/// The contract pins the result to `combined_outcome` of the two
/// capabilities' modeled outcomes: the invocation succeeds, with both
/// values, exactly when both operations succeed, and otherwise fails with
/// the first-observed error.
pub fn function_handler<T: AppInitialisation>(app_client: &T, something: &str) -> (r: Result<
    (String, Option<String>),
    ApplicationError,
>)
    ensures
        invocation_result_matches(
            r,
            combined_outcome(
                app_client.op1_result(something@),
                app_client.op2_result(something@),
            ),
        ),
{
    let (result1, result2) = dispatch_operations(app_client, something);
    aggregate_outcomes(result1, result2)
}

/// Law: the handler's dispatch is deterministic. Two invocations whose
/// capabilities yield the same modeled outcomes report results that agree:
/// the same text values on success, the same error on failure. No call is
/// conditionally skipped and no outcome depends on completion order.
pub proof fn lemma_dispatch_deterministic(
    r_first: Result<(String, Option<String>), ApplicationError>,
    r_second: Result<(String, Option<String>), ApplicationError>,
    m: Result<(Seq<char>, Option<Seq<char>>), ApplicationError>,
)
    requires
        invocation_result_matches(r_first, m),
        invocation_result_matches(r_second, m),
    ensures
        invocation_results_agree(r_first, r_second),
{
}

} // verus!
