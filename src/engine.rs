//! The lifecycle of one sandboxed operation, as a state machine.
//!
//! The caller performs each action (staging files, launching and supervising
//! the container, reading the artifact, cleaning up) and reports what
//! happened as an event; `Operation::step` decides what comes next. A result
//! is handed out only after the cleanup has been reported done.
use vstd::prelude::*;

use crate::classify::{cap_output, capped, classify, timed_out, TIMEOUT_NOTE};
use crate::command::{build_command, command_spec, views, SOFT_TIMEOUT_SECS};
use crate::types::{Outcome, SandboxError};
use crate::OperationKind;

verus! {

/// The host-side limit, in seconds, after which a container is killed. It
/// exceeds the soft timeout so that the toolchain may stop first.
pub const HARD_TIMEOUT_SECS: u64 = 30;

/// The cap, in bytes, on each captured output stream.
pub const OUTPUT_CAP_BYTES: usize = 65536;

/// The hard timeout leaves the toolchain room to keep its soft timeout.
pub proof fn lemma_hard_timeout_exceeds_soft()
    ensures
        HARD_TIMEOUT_SECS > SOFT_TIMEOUT_SECS,
{
}

/// Which action the operation is waiting on.
#[derive(Clone, Copy, Debug, PartialEq, Eq, Structural)]
pub enum Phase {
    Staging,
    Launching,
    Running,
    Retrieving,
    CleaningUp,
    Done,
}

/// What the caller reports after performing an action.
#[derive(Debug, PartialEq, Eq)]
pub enum Event {
    /// The workspace exists and holds the source; a build also has its
    /// output directory.
    Staged { input_file: String, output_dir: Option<String> },
    StagingFailed,
    Launched,
    LaunchFailed,
    /// The container stopped by itself.
    Exited { exit_code: i64, stdout: String, stderr: String },
    /// The hard timeout elapsed before the container stopped.
    TimedOut { stdout: String, stderr: String },
    ArtifactRead { bytes: Vec<u8> },
    ArtifactMissing,
    /// The container, if any, is removed and the workspace deleted.
    CleanedUp,
}

/// What the caller is to do next.
#[derive(Debug, PartialEq, Eq)]
pub enum Action {
    /// Create a fresh workspace, write the source under the fixed name and,
    /// when asked, create an output directory in it.
    Stage { source: String, with_output_dir: bool },
    /// Launch this command as a detached container.
    Launch { command: Vec<String> },
    /// Wait for the container to stop, for at most this many seconds.
    Supervise { hard_timeout_secs: u64 },
    /// Read the artifact from the output directory.
    ReadArtifact,
    /// Remove the container (by force, when it may still run) and delete the
    /// workspace.
    CleanUp { force_remove_container: bool },
    /// Return this result to the caller.
    Finish { result: Result<Outcome, SandboxError> },
}

/// One operation in flight: its kind, toolchain version, phase, what it may
/// hold on the host, and its result once decided.
pub struct Operation {
    pub kind: OperationKind,
    pub version: String,
    pub phase: Phase,
    /// The workspace may exist.
    pub workspace_live: bool,
    /// The container may exist.
    pub container_live: bool,
    /// The result, once decided.
    pub pending: Option<Result<Outcome, SandboxError>>,
}

pub open spec fn opt_string_view(o: Option<String>) -> Option<Seq<char>> {
    match o {
        Some(s) => Some(s@),
        None => None,
    }
}

impl Event {
    /// The event can follow an action of the given phase.
    pub open spec fn fits(&self, phase: Phase) -> bool {
        match phase {
            Phase::Staging => self is Staged || self is StagingFailed,
            Phase::Launching => self is Launched || self is LaunchFailed,
            Phase::Running => self is Exited || self is TimedOut,
            Phase::Retrieving => self is ArtifactRead || self is ArtifactMissing,
            Phase::CleaningUp => self is CleanedUp,
            Phase::Done => false,
        }
    }

    /// Tells whether the event can follow an action of the given phase.
    pub fn is_expected_in(&self, phase: &Phase) -> (r: bool)
        ensures
            r == self.fits(*phase),
    {
        match phase {
            Phase::Staging => matches!(self, Event::Staged { .. } | Event::StagingFailed),
            Phase::Launching => matches!(self, Event::Launched | Event::LaunchFailed),
            Phase::Running => matches!(self, Event::Exited { .. } | Event::TimedOut { .. }),
            Phase::Retrieving => matches!(self, Event::ArtifactRead { .. } | Event::ArtifactMissing),
            Phase::CleaningUp => matches!(self, Event::CleanedUp),
            Phase::Done => false,
        }
    }
}

impl Operation {
    /// The state is consistent with its phase.
    pub open spec fn wf(&self) -> bool {
        match self.phase {
            Phase::Staging => self.pending is None && !self.container_live,
            Phase::Launching => self.pending is None && self.workspace_live && !self.container_live,
            Phase::Running => self.pending is None && self.workspace_live && self.container_live,
            Phase::Retrieving => {
                &&& self.kind == OperationKind::Compile
                &&& self.workspace_live
                &&& self.container_live
                &&& self.pending matches Some(Ok(o))
                &&& o is Success
                &&& o.artifact_view() is None
            },
            Phase::CleaningUp => self.pending is Some,
            Phase::Done => !self.workspace_live && !self.container_live && self.pending is None,
        }
    }

    /// Begins an operation: the first action is to stage the source, with an
    /// output directory for a build only.
    pub fn start(kind: OperationKind, source: String, version: String) -> (r: (Operation, Action))
        ensures
            r.0.wf(),
            r.0.phase is Staging,
            r.0.kind == kind,
            r.0.version@ == version@,
            !r.0.workspace_live,
            !r.0.container_live,
            r.1 matches Action::Stage { source: s, with_output_dir } && s@ == source@
                && with_output_dir == (kind == OperationKind::Compile),
    {
        let with_output_dir = match kind {
            OperationKind::Compile => true,
            _ => false,
        };
        (
            Operation {
                kind,
                version,
                phase: Phase::Staging,
                workspace_live: false,
                container_live: false,
                pending: None,
            },
            Action::Stage { source, with_output_dir },
        )
    }

    /// Decides the next action from the state and the event that the last
    /// action produced.
    pub fn step(self, event: Event) -> (r: (Operation, Action))
        requires
            self.wf(),
            event.fits(self.phase),
        ensures
            r.0.wf(),
            r.0.kind == self.kind,
            r.0.version@ == self.version@,
            // a result leaves only once cleanup is done, with nothing left behind
            (r.1 is Finish) <==> (self.phase is CleaningUp),
            r.1 is Finish ==> r.0.phase is Done && !r.0.workspace_live && !r.0.container_live,
            r.1 matches Action::Finish { result } ==> self.pending == Some(result),
            // every decided result goes through cleanup first
            (r.1 is CleanUp) <==> (r.0.phase is CleaningUp),
            r.1 matches Action::CleanUp { force_remove_container } ==> force_remove_container
                == self.container_live,
            event is Exited ==> (r.1 is ReadArtifact && r.0.phase is Retrieving) || r.1 is CleanUp,
            (event is StagingFailed || event is LaunchFailed || event is TimedOut
                || event is ArtifactRead || event is ArtifactMissing) ==> r.1 is CleanUp,
            // only a successful build looks for an artifact
            r.1 is ReadArtifact ==> self.kind == OperationKind::Compile,
            event matches Event::Staged { input_file, output_dir } ==> {
                &&& r.1 matches Action::Launch { command } && views(command@) == command_spec(
                    self.kind,
                    input_file@,
                    opt_string_view(output_dir),
                    self.version@,
                )
                &&& r.0.phase is Launching
            },
            event is StagingFailed ==> r.0.pending == Some(
                Err::<Outcome, SandboxError>(SandboxError::Staging),
            ),
            event is Launched ==> r.1 == (Action::Supervise { hard_timeout_secs: HARD_TIMEOUT_SECS })
                && r.0.phase is Running,
            event is LaunchFailed ==> r.0.pending == Some(
                Err::<Outcome, SandboxError>(SandboxError::Launch),
            ),
            event matches Event::Exited { exit_code, stdout, stderr } ==> {
                &&& r.0.pending matches Some(Ok(o))
                &&& o.is_success() <==> exit_code == 0
                &&& o.stdout_view() == capped(stdout@, OUTPUT_CAP_BYTES as nat)
                &&& o.stderr_view() == capped(stderr@, OUTPUT_CAP_BYTES as nat)
                &&& o.artifact_view() is None
                &&& (r.1 is ReadArtifact) <==> (exit_code == 0 && self.kind
                    == OperationKind::Compile)
            },
            event matches Event::TimedOut { stdout, stderr } ==> {
                &&& r.0.pending matches Some(Ok(o))
                &&& o is Error
                &&& o.stdout_view() == capped(stdout@, OUTPUT_CAP_BYTES as nat)
                &&& o.stderr_view() == capped(stderr@, OUTPUT_CAP_BYTES as nat) + TIMEOUT_NOTE@
                &&& r.1 == (Action::CleanUp { force_remove_container: true })
            },
            event matches Event::ArtifactRead { bytes } ==> {
                &&& self.pending matches Some(Ok(old_o))
                &&& bytes@.len() > 0 ==> (r.0.pending matches Some(Ok(o)) && o is Success
                    && o.artifact_view() == Some(bytes@) && o.stdout_view()
                    == old_o.stdout_view() && o.stderr_view() == old_o.stderr_view())
                &&& bytes@.len() == 0 ==> r.0.pending == Some(
                    Err::<Outcome, SandboxError>(SandboxError::MissingArtifact),
                )
            },
            event is ArtifactMissing ==> r.0.pending == Some(
                Err::<Outcome, SandboxError>(SandboxError::MissingArtifact),
            ),
    {
        let Operation { kind, version, phase, workspace_live, container_live, pending } = self;
        match event {
            Event::Staged { input_file, output_dir } => {
                let out: Option<&str> = match &output_dir {
                    Some(o) => Some(o.as_str()),
                    None => None,
                };
                let command = build_command(kind, input_file.as_str(), out, version.as_str());
                let next = Operation {
                    kind,
                    version,
                    phase: Phase::Launching,
                    workspace_live: true,
                    container_live: false,
                    pending: None,
                };
                (next, Action::Launch { command })
            },
            Event::StagingFailed => {
                // a partly created workspace may be left, so it is cleaned up too
                Self::clean_up(kind, version, true, false, Err(SandboxError::Staging))
            },
            Event::Launched => {
                let next = Operation {
                    kind,
                    version,
                    phase: Phase::Running,
                    workspace_live: true,
                    container_live: true,
                    pending: None,
                };
                (next, Action::Supervise { hard_timeout_secs: HARD_TIMEOUT_SECS })
            },
            Event::LaunchFailed => {
                Self::clean_up(kind, version, workspace_live, false, Err(SandboxError::Launch))
            },
            Event::Exited { exit_code, stdout, stderr } => {
                let stdout = cap_output(stdout.as_str(), OUTPUT_CAP_BYTES);
                let stderr = cap_output(stderr.as_str(), OUTPUT_CAP_BYTES);
                let (outcome, expect_artifact) = classify(kind, exit_code, stdout, stderr);
                if expect_artifact {
                    let next = Operation {
                        kind,
                        version,
                        phase: Phase::Retrieving,
                        workspace_live: true,
                        container_live: true,
                        pending: Some(Ok(outcome)),
                    };
                    (next, Action::ReadArtifact)
                } else {
                    Self::clean_up(kind, version, true, true, Ok(outcome))
                }
            },
            Event::TimedOut { stdout, stderr } => {
                let stdout = cap_output(stdout.as_str(), OUTPUT_CAP_BYTES);
                let stderr = cap_output(stderr.as_str(), OUTPUT_CAP_BYTES);
                Self::clean_up(kind, version, true, true, Ok(timed_out(stdout, stderr)))
            },
            Event::ArtifactRead { bytes } => {
                let result = match pending {
                    Some(Ok(Outcome::Success { stdout, stderr, .. })) => {
                        if bytes.len() > 0 {
                            Ok(Outcome::Success { artifact: Some(bytes), stdout, stderr })
                        } else {
                            Err(SandboxError::MissingArtifact)
                        }
                    },
                    _ => Err(SandboxError::MissingArtifact),
                };
                Self::clean_up(kind, version, true, true, result)
            },
            Event::ArtifactMissing => {
                Self::clean_up(kind, version, true, true, Err(SandboxError::MissingArtifact))
            },
            Event::CleanedUp => {
                let next = Operation {
                    kind,
                    version,
                    phase: Phase::Done,
                    workspace_live: false,
                    container_live: false,
                    pending: None,
                };
                (next, Action::Finish { result: pending.unwrap() })
            },
        }
    }

    fn clean_up(
        kind: OperationKind,
        version: String,
        workspace_live: bool,
        container_live: bool,
        result: Result<Outcome, SandboxError>,
    ) -> (r: (Operation, Action))
        ensures
            r.0.wf(),
            r.0.kind == kind,
            r.0.version == version,
            r.0.phase is CleaningUp,
            r.0.workspace_live == workspace_live,
            r.0.container_live == container_live,
            r.0.pending == Some(result),
            r.1 == (Action::CleanUp { force_remove_container: container_live }),
    {
        let next = Operation {
            kind,
            version,
            phase: Phase::CleaningUp,
            workspace_live,
            container_live,
            pending: Some(result),
        };
        (next, Action::CleanUp { force_remove_container: container_live })
    }
}

} // verus!
