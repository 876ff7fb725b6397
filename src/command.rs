//! Building the argument vector of a container launch for an operation.
//!
//! Nothing here runs anything: each builder is a pure function of its inputs,
//! and its result is stated exactly by the spec functions below.
use vstd::prelude::*;

use crate::OperationKind;

verus! {

/// The image that holds the contract toolchain.
pub const CONTAINER_IMAGE: &'static str = "sankarboro/ink-compiler";

/// Where the build artifact is moved to inside the container.
pub const OUTPUT_MOUNT: &'static str = "/playground-result";

/// The fixed name under which the source is staged.
pub const SOURCE_FILE_NAME: &'static str = "lib.rs";

/// The toolchain version used where a request names none.
pub const DEFAULT_VERSION: &'static str = "4_2_0";

/// The soft timeout, in seconds, that the toolchain is told to keep.
pub const SOFT_TIMEOUT_SECS: u64 = 20;

/// The name of the environment variable that passes the soft timeout into
/// the container.
pub const SOFT_TIMEOUT_VAR: &'static str = "PLAYGROUND_TIMEOUT";

/// Whether the number of processes in the container is capped.
pub const LIMIT_PROCESSES: bool = true;

/// The views of a sequence of strings.
pub open spec fn views(v: Seq<String>) -> Seq<Seq<char>> {
    v.map_values(|s: String| s@)
}

pub open spec fn opt_view(o: Option<&str>) -> Option<Seq<char>> {
    match o {
        Some(s) => Some(s@),
        None => None,
    }
}

/// The working directory of the toolchain of `version` inside the container.
pub open spec fn work_dir_spec(version: Seq<char>) -> Seq<char> {
    "/app/contract_v"@ + version + "/"@
}

pub open spec fn digit_char(d: nat) -> char {
    if d == 0 {
        '0'
    } else if d == 1 {
        '1'
    } else if d == 2 {
        '2'
    } else if d == 3 {
        '3'
    } else if d == 4 {
        '4'
    } else if d == 5 {
        '5'
    } else if d == 6 {
        '6'
    } else if d == 7 {
        '7'
    } else if d == 8 {
        '8'
    } else {
        '9'
    }
}

/// The decimal digits of `n`, most significant first.
pub open spec fn decimal_spec(n: nat) -> Seq<char>
    decreases n,
{
    if n < 10 {
        seq![digit_char(n)]
    } else {
        decimal_spec(n / 10).push(digit_char(n % 10))
    }
}

/// The environment entry `PLAYGROUND_TIMEOUT=<soft timeout in seconds>`.
pub open spec fn soft_timeout_env_spec() -> Seq<char> {
    SOFT_TIMEOUT_VAR@ + "="@ + decimal_spec(SOFT_TIMEOUT_SECS as nat)
}

/// The launch flags that every operation gets: no capabilities but the one
/// needed to overwrite the mounted source, no privilege escalation, no
/// network, bounded memory and swap, the soft timeout, and optionally a
/// process cap.
pub open spec fn secure_flags_spec(work_dir: Seq<char>) -> Seq<Seq<char>> {
    let base = seq![
        "docker"@,
        "run"@,
        "--detach"@,
        "--cap-drop=ALL"@,
        "--cap-add=DAC_OVERRIDE"@,
        "--security-opt=no-new-privileges"@,
        "--workdir"@,
        work_dir,
        "--net"@,
        "none"@,
        "--memory"@,
        "1024m"@,
        "--memory-swap"@,
        "1200m"@,
        "--env"@,
        soft_timeout_env_spec(),
    ];
    if LIMIT_PROCESSES {
        base + seq!["--pids-limit"@, "512"@]
    } else {
        base
    }
}

/// The volume argument that mounts the staged source over the toolchain's file.
pub open spec fn input_mount_spec(input_file: Seq<char>, version: Seq<char>) -> Seq<char> {
    input_file + ":"@ + work_dir_spec(version) + SOURCE_FILE_NAME@
}

/// The volume argument that mounts the host output directory.
pub open spec fn output_mount_spec(output_dir: Seq<char>) -> Seq<char> {
    output_dir + ":"@ + OUTPUT_MOUNT@
}

pub open spec fn mounts_spec(
    input_file: Seq<char>,
    output_dir: Option<Seq<char>>,
    version: Seq<char>,
) -> Seq<Seq<char>> {
    let input = seq!["--volume"@, input_mount_spec(input_file, version)];
    match output_dir {
        Some(o) => input + seq!["--volume"@, output_mount_spec(o)],
        None => input,
    }
}

pub open spec fn docker_command_spec(
    input_file: Seq<char>,
    output_dir: Option<Seq<char>>,
    version: Seq<char>,
) -> Seq<Seq<char>> {
    secure_flags_spec(work_dir_spec(version)) + mounts_spec(input_file, output_dir, version)
}

pub open spec fn clean_step_spec(v: Seq<char>) -> Seq<char> {
    "rm -rf /app/contract_v"@ + v + "/target/ink/contract_v"@ + v + ".* /app/contract_v"@ + v
        + "/target/ink/metadata.json"@
}

pub open spec fn build_step_spec(v: Seq<char>) -> Seq<char> {
    "cd /app/contract_v"@ + v + " && cargo contract build --offline 2>&1"@
}

pub open spec fn move_step_spec(v: Seq<char>) -> Seq<char> {
    "mv /app/contract_v"@ + v + "/target/ink/contract_v"@ + v + ".contract "@ + OUTPUT_MOUNT@
}

/// The shell script that each kind of operation runs in the container.
pub open spec fn script_spec(kind: OperationKind, version: Seq<char>) -> Seq<char> {
    match kind {
        OperationKind::Compile => clean_step_spec(version) + " && "@ + build_step_spec(version)
            + " && "@ + move_step_spec(version),
        OperationKind::Test => "cargo test 2>&1"@,
        OperationKind::Format => "cargo +nightly fmt && cat lib.rs 2>&1"@,
    }
}

pub open spec fn execution_spec(kind: OperationKind, version: Seq<char>) -> Seq<Seq<char>> {
    seq!["/bin/bash"@, "-c"@, script_spec(kind, version)]
}

/// The whole launch command. Only a build mounts an output directory.
pub open spec fn command_spec(
    kind: OperationKind,
    input_file: Seq<char>,
    output_dir: Option<Seq<char>>,
    version: Seq<char>,
) -> Seq<Seq<char>> {
    let out = if kind == OperationKind::Compile {
        output_dir
    } else {
        None
    };
    docker_command_spec(input_file, out, version) + seq![CONTAINER_IMAGE@] + execution_spec(
        kind,
        version,
    )
}

/// The command contains `--net none`.
pub open spec fn disables_network(cmd: Seq<Seq<char>>) -> bool {
    exists|i: int| 0 <= i && i + 1 < cmd.len() && #[trigger] cmd[i] == "--net"@ && cmd[i + 1] == "none"@
}

/// A character that may stand in a version identifier: an ASCII letter, a
/// digit or an underscore. None of them can form a path separator or `..`.
pub open spec fn is_version_char(c: char) -> bool {
    ('a' <= c && c <= 'z') || ('A' <= c && c <= 'Z') || ('0' <= c && c <= '9') || c == '_'
}

pub open spec fn is_safe_version_spec(version: Seq<char>) -> bool {
    version.len() > 0 && forall|i: int| 0 <= i < version.len() ==> is_version_char(#[trigger] version[i])
}

/// Tells whether `version` is safe to interpolate into paths: non-empty and
/// made of letters, digits and underscores only.
pub fn is_safe_version(version: &str) -> (r: bool)
    ensures
        r == is_safe_version_spec(version@),
{
    let n = version.unicode_len();
    if n == 0 {
        return false;
    }
    let mut i: usize = 0;
    while i < n
        invariant
            n == version@.len(),
            i <= n,
            forall|j: int| 0 <= j < i ==> is_version_char(#[trigger] version@[j]),
        decreases n - i,
    {
        let c = version.get_char(i);
        if !(('a' <= c && c <= 'z') || ('A' <= c && c <= 'Z') || ('0' <= c && c <= '9') || c
            == '_') {
            return false;
        }
        i = i + 1;
    }
    true
}

pub open spec fn artifact_file_name_spec(version: Seq<char>) -> Seq<char> {
    "contract_v"@ + version + ".contract"@
}

/// The name under which a build of `version` leaves its artifact in the
/// output directory.
pub fn artifact_file_name(version: &str) -> (r: String)
    ensures
        r@ == artifact_file_name_spec(version@),
{
    String::from_str("contract_v").concat(version).concat(".contract")
}

fn digit(d: u64) -> (r: &'static str)
    requires
        d < 10,
    ensures
        r@ == seq![digit_char(d as nat)],
{
    proof {
        reveal_strlit("0");
        reveal_strlit("1");
        reveal_strlit("2");
        reveal_strlit("3");
        reveal_strlit("4");
        reveal_strlit("5");
        reveal_strlit("6");
        reveal_strlit("7");
        reveal_strlit("8");
        reveal_strlit("9");
    }
    if d == 0 {
        "0"
    } else if d == 1 {
        "1"
    } else if d == 2 {
        "2"
    } else if d == 3 {
        "3"
    } else if d == 4 {
        "4"
    } else if d == 5 {
        "5"
    } else if d == 6 {
        "6"
    } else if d == 7 {
        "7"
    } else if d == 8 {
        "8"
    } else {
        "9"
    }
}

fn decimal(n: u64) -> (r: String)
    ensures
        r@ == decimal_spec(n as nat),
    decreases n,
{
    if n < 10 {
        String::from_str(digit(n))
    } else {
        let r = decimal(n / 10).concat(digit(n % 10));
        assert(r@ =~= decimal_spec(n as nat));
        r
    }
}

fn work_dir(version: &str) -> (r: String)
    ensures
        r@ == work_dir_spec(version@),
{
    String::from_str("/app/contract_v").concat(version).concat("/")
}

fn push_str(cmd: &mut Vec<String>, s: &str)
    ensures
        views(final(cmd)@) == views(old(cmd)@).push(s@),
{
    let t = String::from_str(s);
    cmd.push(t);
    proof {
        assert(views(cmd@) =~= views(old(cmd)@).push(s@));
    }
}

fn push_owned(cmd: &mut Vec<String>, s: String)
    ensures
        views(final(cmd)@) == views(old(cmd)@).push(s@),
{
    let ghost v = s@;
    cmd.push(s);
    proof {
        assert(views(cmd@) =~= views(old(cmd)@).push(v));
    }
}

fn build_basic_secure_docker_command(work_dir: &str) -> (cmd: Vec<String>)
    ensures
        views(cmd@) == secure_flags_spec(work_dir@),
{
    let mut cmd: Vec<String> = Vec::new();
    push_str(&mut cmd, "docker");
    push_str(&mut cmd, "run");
    push_str(&mut cmd, "--detach");
    push_str(&mut cmd, "--cap-drop=ALL");
    // Needed to allow overwriting the file
    push_str(&mut cmd, "--cap-add=DAC_OVERRIDE");
    push_str(&mut cmd, "--security-opt=no-new-privileges");
    push_str(&mut cmd, "--workdir");
    push_str(&mut cmd, work_dir);
    push_str(&mut cmd, "--net");
    push_str(&mut cmd, "none");
    push_str(&mut cmd, "--memory");
    push_str(&mut cmd, "1024m");
    push_str(&mut cmd, "--memory-swap");
    push_str(&mut cmd, "1200m");
    push_str(&mut cmd, "--env");
    let env = String::from_str(SOFT_TIMEOUT_VAR).concat("=").concat(
        decimal(SOFT_TIMEOUT_SECS).as_str(),
    );
    push_owned(&mut cmd, env);
    if LIMIT_PROCESSES {
        push_str(&mut cmd, "--pids-limit");
        push_str(&mut cmd, "512");
    }
    proof {
        assert(views(cmd@) =~= secure_flags_spec(work_dir@));
    }
    cmd
}

fn build_docker_command(input_file: &str, output_dir: Option<&str>, version: &str) -> (cmd: Vec<
    String,
>)
    ensures
        views(cmd@) == docker_command_spec(input_file@, opt_view(output_dir), version@),
{
    let work_dir = work_dir(version);
    let mount_input_file = String::from_str(input_file).concat(":").concat(work_dir.as_str()).concat(
        SOURCE_FILE_NAME,
    );
    let mut cmd = build_basic_secure_docker_command(work_dir.as_str());
    let ghost base = views(cmd@);
    push_str(&mut cmd, "--volume");
    push_owned(&mut cmd, mount_input_file);
    proof {
        assert(views(cmd@) =~= base + seq!["--volume"@, input_mount_spec(input_file@, version@)]);
    }
    if let Some(output_dir) = output_dir {
        let mount_output_dir = String::from_str(output_dir).concat(":").concat(OUTPUT_MOUNT);
        let ghost with_input = views(cmd@);
        push_str(&mut cmd, "--volume");
        push_owned(&mut cmd, mount_output_dir);
        proof {
            assert(views(cmd@) =~= with_input + seq!["--volume"@, output_mount_spec(output_dir@)]);
        }
    }
    proof {
        assert(views(cmd@) =~= docker_command_spec(input_file@, opt_view(output_dir), version@));
    }
    cmd
}

/// The in-container command of a build: remove stale artifacts of `version`,
/// build offline with both streams captured, move the artifact to the output
/// mount.
pub fn build_execution_command(version: &str) -> (cmd: Vec<String>)
    ensures
        views(cmd@) == execution_spec(OperationKind::Compile, version@),
{
    let clean_cmd = String::from_str("rm -rf /app/contract_v").concat(version).concat(
        "/target/ink/contract_v",
    ).concat(version).concat(".* /app/contract_v").concat(version).concat(
        "/target/ink/metadata.json",
    );
    let build_cmd = String::from_str("cd /app/contract_v").concat(version).concat(
        " && cargo contract build --offline 2>&1",
    );
    let move_cmd = String::from_str("mv /app/contract_v").concat(version).concat(
        "/target/ink/contract_v",
    ).concat(version).concat(".contract ").concat(OUTPUT_MOUNT);
    let command = clean_cmd.concat(" && ").concat(build_cmd.as_str()).concat(" && ").concat(
        move_cmd.as_str(),
    );
    let mut cmd: Vec<String> = Vec::new();
    push_str(&mut cmd, "/bin/bash");
    push_str(&mut cmd, "-c");
    push_owned(&mut cmd, command);
    proof {
        assert(views(cmd@) =~= execution_spec(OperationKind::Compile, version@));
    }
    cmd
}

/// The in-container command of a test run.
pub fn testing_execution_command() -> (cmd: Vec<String>)
    ensures
        forall|v: Seq<char>| views(cmd@) == #[trigger] execution_spec(OperationKind::Test, v),
{
    let mut cmd: Vec<String> = Vec::new();
    push_str(&mut cmd, "/bin/bash");
    push_str(&mut cmd, "-c");
    push_str(&mut cmd, "cargo test 2>&1");
    proof {
        assert forall|v: Seq<char>| views(cmd@) == #[trigger] execution_spec(
            OperationKind::Test,
            v,
        ) by {
            assert(views(cmd@) =~= execution_spec(OperationKind::Test, v));
        }
    }
    cmd
}

/// The in-container command of a formatter run: format, then print the file.
pub fn formatting_execution_command() -> (cmd: Vec<String>)
    ensures
        forall|v: Seq<char>| views(cmd@) == #[trigger] execution_spec(OperationKind::Format, v),
{
    let mut cmd: Vec<String> = Vec::new();
    push_str(&mut cmd, "/bin/bash");
    push_str(&mut cmd, "-c");
    push_str(&mut cmd, "cargo +nightly fmt && cat lib.rs 2>&1");
    proof {
        assert forall|v: Seq<char>| views(cmd@) == #[trigger] execution_spec(
            OperationKind::Format,
            v,
        ) by {
            assert(views(cmd@) =~= execution_spec(OperationKind::Format, v));
        }
    }
    cmd
}

fn append_all(cmd: &mut Vec<String>, tail: Vec<String>)
    ensures
        views(final(cmd)@) == views(old(cmd)@) + views(tail@),
{
    let mut tail = tail;
    let ghost t = views(tail@);
    cmd.append(&mut tail);
    proof {
        assert(views(cmd@) =~= views(old(cmd)@) + t);
    }
}

/// The launch command of a build of `input_file` that leaves its artifact in
/// `output_dir`.
pub fn build_compile_command(input_file: &str, output_dir: &str, version: &str) -> (cmd: Vec<
    String,
>)
    ensures
        views(cmd@) == command_spec(OperationKind::Compile, input_file@, Some(output_dir@), version@),
{
    build_command(OperationKind::Compile, input_file, Some(output_dir), version)
}

/// The launch command of a test run of `input_file`.
pub fn build_testing_command(input_file: &str, version: &str) -> (cmd: Vec<String>)
    ensures
        views(cmd@) == command_spec(OperationKind::Test, input_file@, None, version@),
{
    build_command(OperationKind::Test, input_file, None, version)
}

/// The launch command of a formatter run on `input_file`.
pub fn build_formatting_command(input_file: &str, version: &str) -> (cmd: Vec<String>)
    ensures
        views(cmd@) == command_spec(OperationKind::Format, input_file@, None, version@),
{
    build_command(OperationKind::Format, input_file, None, version)
}

/// The launch command of an operation of any kind. An output directory is
/// mounted for a build only; the other kinds ignore it.
pub fn build_command(
    kind: OperationKind,
    input_file: &str,
    output_dir: Option<&str>,
    version: &str,
) -> (cmd: Vec<String>)
    ensures
        views(cmd@) == command_spec(kind, input_file@, opt_view(output_dir), version@),
{
    let (out, execution_cmd) = match kind {
        OperationKind::Compile => (output_dir, build_execution_command(version)),
        OperationKind::Test => (None, testing_execution_command()),
        OperationKind::Format => (None, formatting_execution_command()),
    };
    let mut cmd = build_docker_command(input_file, out, version);
    push_str(&mut cmd, CONTAINER_IMAGE);
    append_all(&mut cmd, execution_cmd);
    proof {
        assert(views(cmd@) =~= command_spec(kind, input_file@, opt_view(output_dir), version@));
    }
    cmd
}

/// Command construction is deterministic: identical kind, paths and version
/// always give an identical argument sequence.
pub proof fn lemma_command_deterministic(
    kind1: OperationKind,
    input1: Seq<char>,
    output1: Option<Seq<char>>,
    version1: Seq<char>,
    kind2: OperationKind,
    input2: Seq<char>,
    output2: Option<Seq<char>>,
    version2: Seq<char>,
)
    requires
        kind1 == kind2,
        input1 == input2,
        output1 == output2,
        version1 == version2,
    ensures
        command_spec(kind1, input1, output1, version1) == command_spec(
            kind2,
            input2,
            output2,
            version2,
        ),
{
}

/// Every command, of every kind, runs its container with networking
/// disabled.
pub proof fn lemma_network_always_disabled(
    kind: OperationKind,
    input_file: Seq<char>,
    output_dir: Option<Seq<char>>,
    version: Seq<char>,
)
    ensures
        disables_network(command_spec(kind, input_file, output_dir, version)),
{
    let c = command_spec(kind, input_file, output_dir, version);
    assert(c[8] == "--net"@);
    assert(c[9] == "none"@);
}

/// A test or formatter run never mounts an output directory: whatever
/// directory is offered, the only volume is the staged source.
pub proof fn lemma_output_mounted_only_for_builds(
    kind: OperationKind,
    input_file: Seq<char>,
    output_dir: Option<Seq<char>>,
    version: Seq<char>,
)
    requires
        kind != OperationKind::Compile,
    ensures
        command_spec(kind, input_file, output_dir, version) == command_spec(
            kind,
            input_file,
            None,
            version,
        ),
        command_spec(kind, input_file, output_dir, version) == secure_flags_spec(
            work_dir_spec(version),
        ) + seq!["--volume"@, input_mount_spec(input_file, version)] + seq![CONTAINER_IMAGE@]
            + execution_spec(kind, version),
{
}

} // verus!
