//! The per-dependent test protocol as a strict linear state machine: resolve
//! the name, build against the base origin, build against the next origin,
//! and classify. Each stage either advances or terminates the job at once,
//! so a dependent that is already broken against base is never built against
//! next.

use vstd::prelude::*;
use crate::results::{CompileResult, Error, RevDep, RevDepName, TestResult, TestResultData};

verus! {

/// Where one dependent's job stands.
#[derive(Debug)]
pub enum JobState {
    /// The name is known but not yet bound to a concrete version.
    Pending { name: RevDepName },
    /// Resolved; the base-origin build is owed next.
    Resolved { rev_dep: RevDep },
    /// The base build succeeded; the next-origin build is owed.
    BaseBuilt { rev_dep: RevDep, base: CompileResult },
    /// A terminal verdict was reached.
    Done { result: TestResult },
}

/// What the environment reports back for the step the machine asked for.
/// A failing build is a normal `Ok` outcome with `success` false; an `Err`
/// build outcome is an infrastructure fault of the call itself (workspace or
/// toolchain), which must never be conflated with a regression.
#[derive(Debug)]
#[allow(inconsistent_fields)]
pub enum JobEvent {
    /// The registry's answer to a version resolution.
    Resolution { outcome: Result<RevDep, Error> },
    /// The outcome of one isolated build attempt, or the fault that kept the
    /// build call from completing.
    Build { outcome: Result<CompileResult, Error> },
}

/// The one piece of outside work the machine asks for in a given state.
#[derive(Debug)]
pub enum JobAction {
    Resolve { name: RevDepName },
    BuildBase { rev_dep: RevDep },
    BuildNext { rev_dep: RevDep },
}

/// The event a state is prepared to consume. `Done` consumes nothing.
pub open spec fn accepts(state: JobState, event: JobEvent) -> bool {
    match state {
        JobState::Pending { .. } => event is Resolution,
        JobState::Resolved { .. } => event is Build,
        JobState::BaseBuilt { .. } => event is Build,
        JobState::Done { .. } => false,
    }
}

/// A state only ever owes a next-origin build when the base build succeeded.
pub open spec fn base_ok_inv(state: JobState) -> bool {
    state matches JobState::BaseBuilt { base, .. } ==> base.success
}

/// The exact transition relation of the machine: how `next` follows from
/// consuming `event` in `state`.
pub open spec fn step_spec(state: JobState, event: JobEvent, next: JobState) -> bool {
    match state {
        JobState::Pending { name } => {
            &&& event matches JobEvent::Resolution { outcome }
            &&& match outcome {
                Ok(rd) => next == (JobState::Resolved { rev_dep: rd }),
                Err(e) => {
                    &&& next matches JobState::Done { result }
                    &&& result.rev_dep.name == name
                    &&& result.rev_dep.vers@ == "0.0.0"@
                    &&& result.data == TestResultData::Error(e)
                },
            }
        },
        JobState::Resolved { rev_dep } => {
            &&& event matches JobEvent::Build { outcome }
            &&& match outcome {
                Ok(res) => if res.success {
                    next == (JobState::BaseBuilt { rev_dep, base: res })
                } else {
                    next == (JobState::Done {
                        result: TestResult { rev_dep, data: TestResultData::Broken(res) },
                    })
                },
                Err(e) => next == (JobState::Done {
                    result: TestResult { rev_dep, data: TestResultData::Error(e) },
                }),
            }
        },
        JobState::BaseBuilt { rev_dep, base } => {
            &&& event matches JobEvent::Build { outcome }
            &&& match outcome {
                Ok(res) => if res.success {
                    next == (JobState::Done {
                        result: TestResult { rev_dep, data: TestResultData::Pass(base, res) },
                    })
                } else {
                    next == (JobState::Done {
                        result: TestResult { rev_dep, data: TestResultData::Fail(base, res) },
                    })
                },
                Err(e) => next == (JobState::Done {
                    result: TestResult { rev_dep, data: TestResultData::Error(e) },
                }),
            }
        },
        JobState::Done { .. } => false,
    }
}

/// Consume one event and move the job forward. A failed resolution and a
/// failed base build are terminal at once; only a dependent whose base build
/// succeeded ever reaches the next-origin build.
pub fn job_step(state: JobState, event: JobEvent) -> (next: JobState)
    requires
        accepts(state, event),
    ensures
        step_spec(state, event, next),
{
    match state {
        JobState::Pending { name } => {
            match event {
                JobEvent::Resolution { outcome: Ok(rd) } => JobState::Resolved { rev_dep: rd },
                JobEvent::Resolution { outcome: Err(e) } => {
                    let rev_dep = RevDep { name, vers: crate::results::sentinel_version() };
                    JobState::Done { result: TestResult::error(rev_dep, e) }
                },
                JobEvent::Build { .. } => {
                    proof {
                        assert(false);
                    }
                    JobState::Pending { name }
                },
            }
        },
        JobState::Resolved { rev_dep } => {
            match event {
                JobEvent::Build { outcome: Ok(res) } => {
                    if res.failed() {
                        JobState::Done { result: TestResult::broken(rev_dep, res) }
                    } else {
                        JobState::BaseBuilt { rev_dep, base: res }
                    }
                },
                JobEvent::Build { outcome: Err(e) } => {
                    JobState::Done { result: TestResult::error(rev_dep, e) }
                },
                JobEvent::Resolution { .. } => {
                    proof {
                        assert(false);
                    }
                    JobState::Resolved { rev_dep }
                },
            }
        },
        JobState::BaseBuilt { rev_dep, base } => {
            match event {
                JobEvent::Build { outcome: Ok(res) } => {
                    if res.failed() {
                        JobState::Done { result: TestResult::fail(rev_dep, base, res) }
                    } else {
                        JobState::Done { result: TestResult::pass(rev_dep, base, res) }
                    }
                },
                JobEvent::Build { outcome: Err(e) } => {
                    JobState::Done { result: TestResult::error(rev_dep, e) }
                },
                JobEvent::Resolution { .. } => {
                    proof {
                        assert(false);
                    }
                    JobState::BaseBuilt { rev_dep, base }
                },
            }
        },
        JobState::Done { result } => {
            proof {
                assert(false);
            }
            JobState::Done { result }
        },
    }
}

/// The outside work owed in a non-terminal state: resolve while pending,
/// build against base once resolved, build against next only once the base
/// build has succeeded.
pub fn next_action(state: &JobState) -> (a: JobAction)
    requires
        !(state is Done),
    ensures
        state matches JobState::Pending { name } ==> a == (JobAction::Resolve { name: *name }),
        state matches JobState::Resolved { rev_dep } ==> a == (JobAction::BuildBase {
            rev_dep: *rev_dep,
        }),
        state matches JobState::BaseBuilt { rev_dep, .. } ==> a == (JobAction::BuildNext {
            rev_dep: *rev_dep,
        }),
        a is BuildNext <==> state is BaseBuilt,
{
    match state {
        JobState::Pending { name } => JobAction::Resolve { name: name.clone() },
        JobState::Resolved { rev_dep } => JobAction::BuildBase { rev_dep: rev_dep.clone() },
        JobState::BaseBuilt { rev_dep, .. } => JobAction::BuildNext { rev_dep: rev_dep.clone() },
        JobState::Done { .. } => {
            proof {
                assert(false);
            }
            JobAction::Resolve { name: String::new() }
        },
    }
}

/// Law: every transition preserves the invariant that a next-origin build is
/// only ever owed after a successful base build.
pub proof fn lemma_step_preserves_base_ok(state: JobState, event: JobEvent, next: JobState)
    requires
        base_ok_inv(state),
        step_spec(state, event, next),
    ensures
        base_ok_inv(next),
{
}

/// Law: a failed build *call* — an infrastructure fault, as opposed to a
/// build that runs and fails — terminates the job as an `Error` verdict
/// carrying that fault, never as a `Broken` or `Fail` classification, so it
/// can never flip the run's overall result.
pub proof fn lemma_build_fault_is_error_not_fail(state: JobState, e: Error, next: JobState)
    requires
        state is Resolved || state is BaseBuilt,
        step_spec(state, JobEvent::Build { outcome: Err(e) }, next),
    ensures
        next matches JobState::Done { result } && result.data == TestResultData::Error(e),
{
}

/// Law: for a resolved dependent whose base build succeeds, the two build
/// stages classify exactly — `Pass` when the next build also succeeds, `Fail`
/// when it does not — and the verdict carries both outcomes and the
/// dependent's identity.
pub proof fn lemma_two_stage_classification(
    rev_dep: RevDep,
    base: CompileResult,
    next: CompileResult,
    mid: JobState,
    fin: JobState,
)
    requires
        base.success,
        step_spec(JobState::Resolved { rev_dep }, JobEvent::Build { outcome: Ok(base) }, mid),
        step_spec(mid, JobEvent::Build { outcome: Ok(next) }, fin),
    ensures
        next.success ==> fin == (JobState::Done {
            result: TestResult { rev_dep, data: TestResultData::Pass(base, next) },
        }),
        !next.success ==> fin == (JobState::Done {
            result: TestResult { rev_dep, data: TestResultData::Fail(base, next) },
        }),
{
}

/// Law: if the base build fails, the job terminates immediately as `Broken`
/// carrying that base outcome, so no next-origin build is ever requested for
/// that dependent.
pub proof fn lemma_short_circuit(rev_dep: RevDep, outcome: CompileResult, next: JobState)
    requires
        !outcome.success,
        step_spec(JobState::Resolved { rev_dep }, JobEvent::Build { outcome: Ok(outcome) }, next),
    ensures
        next == (JobState::Done {
            result: TestResult { rev_dep, data: TestResultData::Broken(outcome) },
        }),
        !(next is BaseBuilt),
{
}

} // verus!
