use crusader::machine::{job_step, next_action, JobAction, JobEvent, JobState};
use crusader::report::{aggregate_results, overall_failed};
use crusader::results::{CompileResult, Error, RevDep, TestResult, TestResultData};

fn outcome(success: bool) -> CompileResult {
    CompileResult { stdout: String::new(), stderr: String::new(), success }
}

fn dep(name: &str) -> RevDep {
    RevDep { name: name.to_string(), vers: "1.0.0".to_string() }
}

/// Drive one dependent through the whole protocol with the given build
/// outcomes; `next_build` is None when the base build already failed.
fn drive(name: &str, resolution: Result<RevDep, Error>, base: Option<bool>, next: Option<bool>) -> TestResult {
    let mut state = JobState::Pending { name: name.to_string() };
    state = job_step(state, JobEvent::Resolution { outcome: resolution });
    if let Some(base_ok) = base {
        state = job_step(state, JobEvent::Build { outcome: Ok(outcome(base_ok)) });
        if let Some(next_ok) = next {
            state = job_step(state, JobEvent::Build { outcome: Ok(outcome(next_ok)) });
        }
    }
    match state {
        JobState::Done { result } => result,
        _ => panic!("job did not terminate"),
    }
}

#[test]
fn resolution_failure_is_terminal_error_with_sentinel() {
    let t = drive("gamma", Err(Error::CurlError), None, None);
    assert_eq!(t.rev_dep.name, "gamma");
    assert_eq!(t.rev_dep.vers, "0.0.0");
    assert!(matches!(t.data, TestResultData::Error(Error::CurlError)));
}

#[test]
fn base_failure_short_circuits_to_broken() {
    let t = drive("a", Ok(dep("a")), Some(false), None);
    assert!(matches!(t.data, TestResultData::Broken(_)));
}

#[test]
fn next_action_never_asks_next_build_before_base_success() {
    let pending = JobState::Pending { name: "a".to_string() };
    assert!(matches!(next_action(&pending), JobAction::Resolve { ref name } if name == "a"));

    let resolved = JobState::Resolved { rev_dep: dep("a") };
    assert!(matches!(next_action(&resolved), JobAction::BuildBase { .. }));

    // The only state that requests a next-origin build records a successful base.
    let base_built = JobState::BaseBuilt { rev_dep: dep("a"), base: outcome(true) };
    assert!(matches!(next_action(&base_built), JobAction::BuildNext { .. }));

    // A failing base build never reaches BaseBuilt.
    let after = job_step(
        JobState::Resolved { rev_dep: dep("a") },
        JobEvent::Build { outcome: Ok(outcome(false)) },
    );
    assert!(!matches!(after, JobState::BaseBuilt { .. }));
}

#[test]
fn base_build_call_fault_is_error_not_broken() {
    let after = job_step(
        JobState::Resolved { rev_dep: dep("a") },
        JobEvent::Build { outcome: Err(Error::IoError("no workspace".to_string())) },
    );
    match after {
        JobState::Done { result } => {
            assert!(matches!(result.data, TestResultData::Error(Error::IoError(_))));
        }
        _ => panic!("a failed build call must be terminal"),
    }
}

#[test]
fn next_build_call_fault_is_error_not_fail() {
    let mid = job_step(
        JobState::Resolved { rev_dep: dep("a") },
        JobEvent::Build { outcome: Ok(outcome(true)) },
    );
    let fin = job_step(
        mid,
        JobEvent::Build { outcome: Err(Error::IoError("toolchain died".to_string())) },
    );
    let result = match fin {
        JobState::Done { result } => result,
        _ => panic!("a failed build call must be terminal"),
    };
    assert!(matches!(result.data, TestResultData::Error(Error::IoError(_))));
    // An infrastructure fault is never a regression and never fails the run.
    assert!(!result.failed());
    assert!(!overall_failed(&vec![result]));
}

#[test]
fn regression_is_fail_with_both_outcomes() {
    let t = drive("a", Ok(dep("a")), Some(true), Some(false));
    assert!(matches!(t.data, TestResultData::Fail(ref b, ref n) if b.success && !n.success));
}

#[test]
fn clean_dependent_passes() {
    let t = drive("a", Ok(dep("a")), Some(true), Some(true));
    assert!(matches!(t.data, TestResultData::Pass(ref b, ref n) if b.success && n.success));
}

#[test]
fn scenario_alpha_passes_beta_regresses() {
    let alpha = drive("alpha", Ok(dep("alpha")), Some(true), Some(true));
    let beta = drive("beta", Ok(dep("beta")), Some(true), Some(false));
    assert!(matches!(alpha.data, TestResultData::Pass(..)));
    assert!(matches!(beta.data, TestResultData::Fail(..)));
    let report = vec![alpha, beta];
    assert!(overall_failed(&report));
    match aggregate_results(report) {
        Err(Error::TestFailure(results)) => {
            assert_eq!(results.len(), 2);
            assert_eq!(results[0].rev_dep.name, "alpha");
            assert_eq!(results[1].rev_dep.name, "beta");
        }
        _ => panic!("a regression must surface as TestFailure"),
    }
}

#[test]
fn scenario_gamma_resolution_timeout_does_not_fail_run() {
    let gamma = drive("gamma", Err(Error::CurlError), None, None);
    assert_eq!(gamma.rev_dep.name, "gamma");
    assert_eq!(gamma.rev_dep.vers, "0.0.0");
    assert!(matches!(gamma.data, TestResultData::Error(_)));
    let report = vec![gamma];
    assert!(!overall_failed(&report));
    match aggregate_results(report) {
        Ok(results) => {
            assert_eq!(results.len(), 1);
            assert!(matches!(results[0].data, TestResultData::Error(_)));
        }
        Err(_) => panic!("infrastructure errors alone must not fail the run"),
    }
}

#[test]
fn overall_failed_ignores_broken_and_error() {
    let report = vec![
        TestResult::broken(dep("a"), outcome(false)),
        TestResult::error(dep("b"), Error::CurlError),
    ];
    assert!(!overall_failed(&report));
}

#[test]
fn overall_failed_sees_one_fail_among_passes() {
    let report = vec![
        TestResult::pass(dep("a"), outcome(true), outcome(true)),
        TestResult::fail(dep("b"), outcome(true), outcome(false)),
    ];
    assert!(overall_failed(&report));
}

#[test]
fn empty_report_does_not_fail() {
    let report: Vec<TestResult> = Vec::new();
    assert!(!overall_failed(&report));
    assert!(aggregate_results(report).unwrap().is_empty());
}

#[test]
fn aggregate_keeps_full_report_on_success() {
    let report = vec![
        TestResult::pass(dep("a"), outcome(true), outcome(true)),
        TestResult::broken(dep("b"), outcome(false)),
    ];
    let results = aggregate_results(report).unwrap();
    assert_eq!(results.len(), 2);
    assert_eq!(results[0].rev_dep.name, "a");
    assert_eq!(results[1].rev_dep.name, "b");
}
