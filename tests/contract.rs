use sandbox::classify::classify;
use sandbox::types::{
    CompilationRequest, CompilationResult, Outcome, SandboxError, TestingRequest, TestingResult,
};
use sandbox::OperationKind;

/// A compile strategy that accepts only `foo` as correct source code.
fn compile_mocked(req: CompilationRequest) -> Result<CompilationResult, SandboxError> {
    let (exit_code, stdout, stderr) = if req.source == "foo" {
        (0, format!("Compilation of {} succeeded.", req.source), String::new())
    } else {
        (1, String::new(), format!("Compilation of {} failed.", req.source))
    };
    let (outcome, expects_artifact) = classify(OperationKind::Compile, exit_code, stdout, stderr);
    let outcome = match outcome {
        Outcome::Success { stdout, stderr, .. } if expects_artifact => {
            Outcome::Success { artifact: Some(vec![]), stdout, stderr }
        }
        other => other,
    };
    Ok(outcome.into_compilation_result())
}

/// A testing strategy that accepts only `foo` as correct source code.
fn testing_mocked(req: TestingRequest) -> Result<TestingResult, SandboxError> {
    let (exit_code, stdout, stderr) = if req.source == "foo" {
        (0, format!("Testing of {} succeeded.", req.source), String::new())
    } else {
        (1, String::new(), format!("Testing of {} failed.", req.source))
    };
    let (outcome, _) = classify(OperationKind::Test, exit_code, stdout, stderr);
    Ok(outcome.into_testing_result())
}

#[test]
fn test_compilation_success() {
    let req = CompilationRequest { source: "foo".to_string(), version: "4_2_0".to_string() };
    let res = compile_mocked(req).unwrap();
    assert_eq!(
        res,
        CompilationResult::Success {
            wasm: vec![],
            stdout: "Compilation of foo succeeded.".to_string(),
            stderr: "".to_string(),
        }
    );
}

#[test]
fn test_compilation_failure() {
    let req = CompilationRequest { source: "bar".to_string(), version: "4_2_0".to_string() };
    let res = compile_mocked(req).unwrap();
    assert_eq!(
        res,
        CompilationResult::Error {
            stdout: "".to_string(),
            stderr: "Compilation of bar failed.".to_string()
        }
    );
}

#[test]
fn test_testing_success() {
    let req = TestingRequest { source: "foo".to_string() };
    let res = testing_mocked(req).unwrap();
    assert_eq!(
        res,
        TestingResult::Success {
            stdout: "Testing of foo succeeded.".to_string(),
            stderr: "".to_string(),
        }
    );
}

#[test]
fn test_testing_failure() {
    let req = TestingRequest { source: "bar".to_string() };
    let res = testing_mocked(req).unwrap();
    assert_eq!(
        res,
        TestingResult::Error { stdout: "".to_string(), stderr: "Testing of bar failed.".to_string() }
    );
}
