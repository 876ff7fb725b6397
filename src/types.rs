use vstd::prelude::*;

verus! {

/// A request to build a contract with the toolchain of a given version.
#[derive(Clone, Debug, PartialEq, Eq)]
pub struct CompilationRequest {
    pub source: String,
    pub version: String,
}

/// A request to run a contract's tests.
#[derive(Clone, Debug, PartialEq, Eq)]
pub struct TestingRequest {
    pub source: String,
}

/// A request to reformat a contract's source.
#[derive(Clone, Debug, PartialEq, Eq)]
pub struct FormattingRequest {
    pub source: String,
}

/// What a build produced: the artifact and the captured output, or the
/// captured output of a failed build.
#[derive(Clone, Debug, PartialEq, Eq)]
pub enum CompilationResult {
    Success { wasm: Vec<u8>, stdout: String, stderr: String },
    Error { stdout: String, stderr: String },
}

/// What a test run produced.
#[derive(Clone, Debug, PartialEq, Eq)]
pub enum TestingResult {
    Success { stdout: String, stderr: String },
    Error { stdout: String, stderr: String },
}

/// What a formatter run produced; on success `stdout` holds the rewritten file.
#[derive(Clone, Debug, PartialEq, Eq)]
pub enum FormattingResult {
    Success { stdout: String, stderr: String },
    Error { stdout: String, stderr: String },
}

/// The classified result of one sandboxed operation.
#[derive(Clone, Debug, PartialEq, Eq)]
pub enum Outcome {
    Success { artifact: Option<Vec<u8>>, stdout: String, stderr: String },
    Error { stdout: String, stderr: String },
}

/// Failures of the engine itself, as opposed to a failing build or test run.
#[derive(Clone, Copy, Debug, PartialEq, Eq, Structural)]
pub enum SandboxError {
    /// The workspace could not be created or the source could not be written.
    Staging,
    /// The container runtime was unavailable or refused the launch.
    Launch,
    /// A build reported success but left no artifact behind.
    MissingArtifact,
}

impl Outcome {
    pub open spec fn is_success(&self) -> bool {
        self is Success
    }

    pub open spec fn stdout_view(&self) -> Seq<char> {
        match self {
            Outcome::Success { stdout, .. } => stdout@,
            Outcome::Error { stdout, .. } => stdout@,
        }
    }

    pub open spec fn stderr_view(&self) -> Seq<char> {
        match self {
            Outcome::Success { stderr, .. } => stderr@,
            Outcome::Error { stderr, .. } => stderr@,
        }
    }

    /// The artifact bytes, if the outcome carries any.
    pub open spec fn artifact_view(&self) -> Option<Seq<u8>> {
        match self {
            Outcome::Success { artifact: Some(a), .. } => Some(a@),
            _ => None,
        }
    }

    /// The result of a build. A successful build always carries its artifact.
    pub fn into_compilation_result(self) -> (r: CompilationResult)
        requires
            self is Success ==> self.artifact_view() is Some,
        ensures
            (r is Success) <==> self.is_success(),
            r matches CompilationResult::Success { wasm, stdout, stderr } ==> Some(wasm@)
                == self.artifact_view() && stdout@ == self.stdout_view() && stderr@
                == self.stderr_view(),
            r matches CompilationResult::Error { stdout, stderr } ==> stdout@ == self.stdout_view()
                && stderr@ == self.stderr_view(),
    {
        match self {
            Outcome::Success { artifact: Some(wasm), stdout, stderr } => CompilationResult::Success {
                wasm,
                stdout,
                stderr,
            },
            Outcome::Success { artifact: None, stdout, stderr } => CompilationResult::Error {
                stdout,
                stderr,
            },
            Outcome::Error { stdout, stderr } => CompilationResult::Error { stdout, stderr },
        }
    }

    /// The result of a test run.
    pub fn into_testing_result(self) -> (r: TestingResult)
        ensures
            (r is Success) <==> self.is_success(),
            r matches TestingResult::Success { stdout, stderr } ==> stdout@ == self.stdout_view()
                && stderr@ == self.stderr_view(),
            r matches TestingResult::Error { stdout, stderr } ==> stdout@ == self.stdout_view()
                && stderr@ == self.stderr_view(),
    {
        match self {
            Outcome::Success { stdout, stderr, .. } => TestingResult::Success { stdout, stderr },
            Outcome::Error { stdout, stderr } => TestingResult::Error { stdout, stderr },
        }
    }

    /// The result of a formatter run.
    pub fn into_formatting_result(self) -> (r: FormattingResult)
        ensures
            (r is Success) <==> self.is_success(),
            r matches FormattingResult::Success { stdout, stderr } ==> stdout@ == self.stdout_view()
                && stderr@ == self.stderr_view(),
            r matches FormattingResult::Error { stdout, stderr } ==> stdout@ == self.stdout_view()
                && stderr@ == self.stderr_view(),
    {
        match self {
            Outcome::Success { stdout, stderr, .. } => FormattingResult::Success { stdout, stderr },
            Outcome::Error { stdout, stderr } => FormattingResult::Error { stdout, stderr },
        }
    }
}

} // verus!
