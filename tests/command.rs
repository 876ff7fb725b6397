use sandbox::command::{
    is_safe_version,
    build_command, build_compile_command, build_execution_command, build_formatting_command,
    build_testing_command, formatting_execution_command, testing_execution_command,
};
use sandbox::OperationKind;

fn has_net_none(cmd: &[String]) -> bool {
    cmd.windows(2).any(|w| w[0] == "--net" && w[1] == "none")
}

fn volumes(cmd: &[String]) -> Vec<String> {
    cmd.windows(2).filter(|w| w[0] == "--volume").map(|w| w[1].clone()).collect()
}

#[test]
fn compile_command_is_exact() {
    let cmd = build_compile_command("/tmp/ws/lib.rs", "/tmp/ws/out", "4_2_0");
    let expected: Vec<String> = vec![
        "docker",
        "run",
        "--detach",
        "--cap-drop=ALL",
        "--cap-add=DAC_OVERRIDE",
        "--security-opt=no-new-privileges",
        "--workdir",
        "/app/contract_v4_2_0/",
        "--net",
        "none",
        "--memory",
        "1024m",
        "--memory-swap",
        "1200m",
        "--env",
        "PLAYGROUND_TIMEOUT=20",
        "--pids-limit",
        "512",
        "--volume",
        "/tmp/ws/lib.rs:/app/contract_v4_2_0/lib.rs",
        "--volume",
        "/tmp/ws/out:/playground-result",
        "sankarboro/ink-compiler",
        "/bin/bash",
        "-c",
        "rm -rf /app/contract_v4_2_0/target/ink/contract_v4_2_0.* \
         /app/contract_v4_2_0/target/ink/metadata.json && cd /app/contract_v4_2_0 && \
         cargo contract build --offline 2>&1 && mv \
         /app/contract_v4_2_0/target/ink/contract_v4_2_0.contract /playground-result",
    ]
    .into_iter()
    .map(String::from)
    .collect();
    assert_eq!(cmd, expected);
}

#[test]
fn execution_commands_are_exact() {
    assert_eq!(
        build_execution_command("1"),
        vec![
            "/bin/bash".to_string(),
            "-c".to_string(),
            "rm -rf /app/contract_v1/target/ink/contract_v1.* /app/contract_v1/target/ink/metadata.json \
             && cd /app/contract_v1 && cargo contract build --offline 2>&1 && \
             mv /app/contract_v1/target/ink/contract_v1.contract /playground-result"
                .to_string(),
        ]
    );
    assert_eq!(
        testing_execution_command(),
        vec!["/bin/bash".to_string(), "-c".to_string(), "cargo test 2>&1".to_string()]
    );
    assert_eq!(
        formatting_execution_command(),
        vec![
            "/bin/bash".to_string(),
            "-c".to_string(),
            "cargo +nightly fmt && cat lib.rs 2>&1".to_string()
        ]
    );
}

#[test]
fn commands_are_deterministic() {
    for kind in [OperationKind::Compile, OperationKind::Test, OperationKind::Format] {
        let a = build_command(kind, "/w/lib.rs", Some("/w/out"), "3_0_0");
        let b = build_command(kind, "/w/lib.rs", Some("/w/out"), "3_0_0");
        assert_eq!(a, b);
    }
}

#[test]
fn every_command_disables_network() {
    assert!(has_net_none(&build_compile_command("/w/lib.rs", "/w/out", "v")));
    assert!(has_net_none(&build_testing_command("/w/lib.rs", "v")));
    assert!(has_net_none(&build_formatting_command("/w/lib.rs", "v")));
}

#[test]
fn only_builds_mount_an_output_directory() {
    for kind in [OperationKind::Test, OperationKind::Format] {
        let cmd = build_command(kind, "/w/lib.rs", Some("/w/out"), "v");
        assert_eq!(volumes(&cmd), vec!["/w/lib.rs:/app/contract_vv/lib.rs".to_string()]);
        assert_eq!(cmd, build_command(kind, "/w/lib.rs", None, "v"));
    }
    let cmd = build_command(OperationKind::Compile, "/w/lib.rs", Some("/w/out"), "v");
    assert_eq!(volumes(&cmd).len(), 2);
    assert_eq!(build_testing_command("/w/lib.rs", "v")[23], "cargo test 2>&1");
}

#[test]
fn versions_with_path_characters_are_refused() {
    assert!(is_safe_version("4_2_0"));
    assert!(is_safe_version("v3"));
    assert!(!is_safe_version(""));
    assert!(!is_safe_version("../etc"));
    assert!(!is_safe_version("4.2.0"));
    assert!(!is_safe_version("a/b"));
    assert!(!is_safe_version("é"));
}

#[test]
fn artifact_name_follows_version() {
    assert_eq!(sandbox::command::artifact_file_name("4_2_0"), "contract_v4_2_0.contract");
}
