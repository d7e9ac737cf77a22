//! Per-dependent verdicts: the outcome of one build attempt, the four
//! terminal classifications of a tested reverse dependent, and the error
//! taxonomy of the whole run.

use vstd::prelude::*;
use vstd::string::StringExecFns;

verus! {

/// The name of a reverse dependent, as the registry reports it.
pub type RevDepName = String;

/// A concrete version number, kept as the registry's own text.
pub type VersionNumber = String;

/// The outcome of one isolated build attempt against one origin.
#[derive(Debug)]
pub struct CompileResult {
    pub stdout: String,
    pub stderr: String,
    pub success: bool,
}

impl CompileResult {
    /// A build attempt failed exactly when it did not succeed.
    pub fn failed(&self) -> (r: bool)
        ensures
            r == !self.success,
    {
        !self.success
    }
}

impl Clone for CompileResult {
    fn clone(&self) -> (r: Self)
        ensures
            r == *self,
    {
        CompileResult {
            stdout: self.stdout.clone(),
            stderr: self.stderr.clone(),
            success: self.success,
        }
    }
}

/// A reverse dependent bound to a concrete version.
#[derive(Debug)]
pub struct RevDep {
    pub name: RevDepName,
    pub vers: VersionNumber,
}

impl Clone for RevDep {
    fn clone(&self) -> (r: Self)
        ensures
            r == *self,
    {
        RevDep { name: self.name.clone(), vers: self.vers.clone() }
    }
}

/// The version recorded for a dependent whose resolution never finished.
pub fn sentinel_version() -> (s: VersionNumber)
    ensures
        s@ == "0.0.0"@,
{
    String::from_str("0.0.0")
}

/// The errors a run can surface: configuration faults, registry
/// communication faults, a worker that died without reporting, and the
/// aggregate regression failure that carries the full report.
#[derive(Debug)]
pub enum Error {
    ManifestName(String),
    TestFailure(Vec<TestResult>),
    TomlError,
    IoError(String),
    CurlError,
    HttpError(u32),
    Utf8Error,
    JsonDecode,
    RecvError,
}

/// The classified outcome of testing one dependent across both origins.
#[derive(Debug)]
pub enum TestResultData {
    /// Failed against the base origin: pre-existing breakage.
    Broken(CompileResult),
    /// Succeeded against base, failed against next: a genuine regression.
    Fail(CompileResult, CompileResult),
    /// Succeeded against both origins.
    Pass(CompileResult, CompileResult),
    /// The orchestration itself could not complete for this dependent.
    Error(Error),
}

/// One dependent's verdict.
#[derive(Debug)]
pub struct TestResult {
    pub rev_dep: RevDep,
    pub data: TestResultData,
}

impl TestResult {
    pub fn broken(rev_dep: RevDep, r: CompileResult) -> (t: TestResult)
        ensures
            t == (TestResult { rev_dep, data: TestResultData::Broken(r) }),
    {
        TestResult { rev_dep, data: TestResultData::Broken(r) }
    }

    pub fn fail(rev_dep: RevDep, r1: CompileResult, r2: CompileResult) -> (t: TestResult)
        ensures
            t == (TestResult { rev_dep, data: TestResultData::Fail(r1, r2) }),
    {
        TestResult { rev_dep, data: TestResultData::Fail(r1, r2) }
    }

    pub fn pass(rev_dep: RevDep, r1: CompileResult, r2: CompileResult) -> (t: TestResult)
        ensures
            t == (TestResult { rev_dep, data: TestResultData::Pass(r1, r2) }),
    {
        TestResult { rev_dep, data: TestResultData::Pass(r1, r2) }
    }

    pub fn error(rev_dep: RevDep, e: Error) -> (t: TestResult)
        ensures
            t == (TestResult { rev_dep, data: TestResultData::Error(e) }),
    {
        TestResult { rev_dep, data: TestResultData::Error(e) }
    }

    /// Only a regression counts as a failure of the run; pre-existing
    /// breakage and infrastructure errors do not.
    pub fn failed(&self) -> (r: bool)
        ensures
            r == (self.data is Fail),
    {
        match self.data {
            TestResultData::Fail(..) => true,
            _ => false,
        }
    }
}

} // verus!
