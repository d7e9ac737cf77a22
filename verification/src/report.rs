//! Reducing the ordered list of per-dependent verdicts to the run's overall
//! result: the run fails exactly when at least one genuine regression exists.

use vstd::prelude::*;
use crate::future::{take_all, TestResultFuture};
use crate::results::{Error, TestResult};

verus! {

/// At least one verdict in the list is a regression.
pub open spec fn any_failed(rs: Seq<TestResult>) -> bool {
    exists|i: int| 0 <= i < rs.len() && rs[i].data is Fail
}

/// Whether the batch regressed: true iff some verdict is `Fail`. `Broken`
/// and `Error` verdicts are reported but never flip the overall result.
pub fn overall_failed(results: &Vec<TestResult>) -> (b: bool)
    ensures
        b == any_failed(results@),
{
    let mut failed = false;
    let mut i: usize = 0;
    while i < results.len()
        invariant
            i <= results@.len(),
            failed == (exists|j: int| 0 <= j < i && results@[j].data is Fail),
        decreases results@.len() - i,
    {
        if results[i].failed() {
            failed = true;
        }
        i += 1;
    }
    failed
}

/// Law: a report with no `Fail` entry — however many `Broken` or `Error`
/// entries it carries — never fails overall.
pub proof fn lemma_broken_and_error_do_not_fail_run(rs: Seq<TestResult>)
    requires
        forall|i: int| 0 <= i < rs.len() ==> !(rs[i].data is Fail),
    ensures
        !any_failed(rs),
{
}

/// The run's terminal result: the full ordered report on success, or a
/// `TestFailure` carrying that same report when any dependent regressed.
pub fn aggregate_results(results: Vec<TestResult>) -> (r: Result<Vec<TestResult>, Error>)
    ensures
        any_failed(results@) ==> r == Result::<Vec<TestResult>, Error>::Err(
            Error::TestFailure(results),
        ),
        !any_failed(results@) ==> r == Result::<Vec<TestResult>, Error>::Ok(results),
{
    let failed = overall_failed(&results);
    if failed {
        Err(Error::TestFailure(results))
    } else {
        Ok(results)
    }
}

/// Collect the whole batch in submission order and reduce it. The batch is
/// total: exactly one verdict per submitted dependent, whether its worker
/// reported a verdict or died, and whichever way the run ends.
pub fn collect_results(futures: Vec<TestResultFuture>) -> (r: Result<Vec<TestResult>, Error>)
    ensures
        r matches Ok(v) ==> v@.len() == futures@.len() && !any_failed(v@),
        r matches Err(e) ==> e matches Error::TestFailure(v) && v@.len() == futures@.len()
            && any_failed(v@),
{
    let results = take_all(futures);
    aggregate_results(results)
}

} // verus!
