//! The one-shot handoff of a dependent's verdict from its worker back to the
//! orchestrator, and the in-order collection of a whole batch. A worker that
//! dies without sending is converted into a synthetic `Error` verdict for its
//! dependent; it never aborts the batch, and the batch never drops a
//! dependent.

use vstd::prelude::*;
use std::sync::mpsc::{Receiver, Sender};
use crate::results::{Error, RevDep, RevDepName, TestResult, TestResultData, sentinel_version};

verus! {

#[verifier::external_type_specification]
#[verifier::external_body]
#[verifier::reject_recursive_types(T)]
pub struct ExSender<T>(Sender<T>);

#[verifier::external_type_specification]
#[verifier::external_body]
#[verifier::reject_recursive_types(T)]
pub struct ExReceiver<T>(Receiver<T>);

/// Relies on std::sync::mpsc::channel: returns the two halves of a fresh
/// asynchronous channel.
#[verifier::external_body]
fn result_channel() -> (pair: (Sender<TestResult>, Receiver<TestResult>)) {
    std::sync::mpsc::channel()
}

/// Relies on std::sync::mpsc::Receiver::recv: blocks until a value arrives
/// and returns it, or returns nothing once every sender is dropped without
/// having sent. What arrives depends on the sending worker, so nothing more
/// is promised of it.
#[verifier::external_body]
fn recv_result(rx: &Receiver<TestResult>) -> (r: Option<TestResult>) {
    rx.recv().ok()
}

/// The receiving half of one job's verdict channel, tagged with the
/// dependent's name so a verdict survives even a dead worker.
pub struct TestResultFuture {
    rev_dep: RevDepName,
    rx: Receiver<TestResult>,
}

/// The synthetic verdict for a dependent whose worker terminated abnormally
/// before sending: an `Error` carrying the dependent's own name and the
/// sentinel version.
pub fn worker_fault_verdict(name: RevDepName) -> (t: TestResult)
    ensures
        t.rev_dep.name == name,
        t.rev_dep.vers@ == "0.0.0"@,
        t.data == TestResultData::Error(Error::RecvError),
{
    TestResult::error(RevDep { name, vers: sentinel_version() }, Error::RecvError)
}

/// Settle one dependent's verdict once its channel is decided: a received
/// verdict passes through unchanged, and nothing received — the worker died
/// before sending — becomes the synthetic fault verdict for that dependent,
/// never a fault of the batch.
pub fn settle(name: RevDepName, received: Option<TestResult>) -> (t: TestResult)
    ensures
        received matches Some(v) ==> t == v,
        received is None ==> (t.rev_dep.name == name && t.rev_dep.vers@ == "0.0.0"@
            && t.data == TestResultData::Error(Error::RecvError)),
{
    match received {
        Some(v) => v,
        None => worker_fault_verdict(name),
    }
}

impl TestResultFuture {
    /// The dependent this future's verdict is for.
    pub closed spec fn dep_name(&self) -> RevDepName {
        self.rev_dep
    }

    /// Block until this job's verdict arrives, then settle it: a received
    /// verdict passes through, a dead worker becomes the synthetic fault
    /// verdict. What arrives on the channel is outside the model, so the
    /// decision itself carries the contract, on `settle`.
    pub fn take(self) -> (t: TestResult) {
        settle(self.rev_dep, recv_result(&self.rx))
    }
}

/// Pair a dependent's name with a fresh one-shot channel: the sender goes to
/// the worker, the future — tagged with the submitted name, so a verdict
/// survives even a dead worker — stays with the orchestrator.
pub fn new_result_future(rev_dep: RevDepName) -> (pair: (Sender<TestResult>, TestResultFuture))
    ensures
        pair.1.dep_name() == rev_dep,
{
    let (tx, rx) = result_channel();
    let fut = TestResultFuture { rev_dep, rx };
    (tx, fut)
}

/// Collect every submitted job's verdict, in submission order: one verdict
/// per future, blocking on each in turn, so the report is total and
/// deterministically ordered however the workers finish.
pub fn take_all(futures: Vec<TestResultFuture>) -> (results: Vec<TestResult>)
    ensures
        results@.len() == futures@.len(),
{
    let mut pending = futures;
    let ghost total = pending@.len();
    let mut results: Vec<TestResult> = Vec::new();
    while pending.len() > 0
        invariant
            results@.len() + pending@.len() == total,
        decreases pending@.len(),
    {
        let fut = pending.remove(0);
        results.push(fut.take());
    }
    results
}

} // verus!
