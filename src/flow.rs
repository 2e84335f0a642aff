use vstd::prelude::*;
use crate::arch::{detect_from_output, normalized_machine, tag_for_machine, ArchTag};
use crate::error::SetupError;
use crate::install::{install_script, install_script_spec};
use crate::session::SERVER_PORT;
use crate::supervisor::{launch_script, launch_script_spec};
use crate::text::push_text;

verus! {

/// The phases of a run, each one remote invocation.
#[derive(Clone, Copy, Debug, PartialEq, Eq, Structural)]
pub enum Phase {
    /// Check that the host can be reached and runs commands.
    Probe,
    /// Read the host's hardware identifier.
    Detect,
    /// Make sure the server for this platform is installed.
    Install(ArchTag),
    /// Launch the supervised server behind the tunnel and stream its log.
    Launch,
    /// The launch invocation ended.
    Finished,
}

/// How one remote invocation ended.
pub struct Outcome {
    /// Exit status zero.
    pub success: bool,
    /// What it wrote to standard output.
    pub output: String,
    /// What it wrote to standard error.
    pub errors: String,
}

/// The phase that follows a successful probe.
pub open spec fn after_probe(arch: Option<ArchTag>) -> Phase {
    match arch {
        Some(t) => Phase::Install(t),
        None => Phase::Detect,
    }
}

/// The command the probe runs.
pub open spec fn probe_command_spec() -> Seq<char> {
    "echo 'SSH connection successful'"@
}

/// The command that reports the hardware identifier.
pub open spec fn detect_command_spec() -> Seq<char> {
    "uname -m"@
}

/// The remote command of phase `p`; `Finished` runs nothing.
pub open spec fn command_spec(p: Phase, clear_cache: bool) -> Seq<char> {
    match p {
        Phase::Probe => probe_command_spec(),
        Phase::Detect => detect_command_spec(),
        Phase::Install(t) => install_script_spec(t, clear_cache),
        Phase::Launch => launch_script_spec(SERVER_PORT as nat),
        Phase::Finished => Seq::empty(),
    }
}

/// The remote command of phase `p`.
pub fn command_for(p: Phase, clear_cache: bool) -> (r: String)
    ensures
        r@ == command_spec(p, clear_cache),
{
    match p {
        Phase::Probe => String::from_str("echo 'SSH connection successful'"),
        Phase::Detect => String::from_str("uname -m"),
        Phase::Install(t) => install_script(t, clear_cache),
        Phase::Launch => launch_script(SERVER_PORT),
        Phase::Finished => String::new(),
    }
}

/// The first phase of a run.
pub fn first_phase() -> (r: Phase)
    ensures
        r == Phase::Probe,
{
    Phase::Probe
}

/// The phase after `p` ended with `out`, or the error that aborts the run.
/// Success is exit status zero; any failure aborts with the error kind of its
/// phase, carrying the captured error stream. An architecture given by the
/// operator skips detection; a detected one follows the identifier mapping,
/// which never fails.
pub fn advance(p: Phase, arch: Option<ArchTag>, out: &Outcome) -> (r: Result<Phase, SetupError>)
    ensures
        p is Finished ==> r == Ok::<Phase, SetupError>(Phase::Finished),
        !(p is Finished) && out.success ==> r == Ok::<Phase, SetupError>(match p {
            Phase::Probe => after_probe(arch),
            Phase::Detect => Phase::Install(tag_for_machine(normalized_machine(out.output@))),
            Phase::Install(_) => Phase::Launch,
            _ => Phase::Finished,
        }),
        !(p is Finished) && !out.success ==> (r matches Err(e) && match (p, e) {
            (Phase::Probe, SetupError::Connection(s)) => s@ == out.errors@,
            (Phase::Detect, SetupError::Detection(s)) => s@ == out.errors@,
            (Phase::Install(_), SetupError::Install(s)) => s@ == out.errors@,
            (Phase::Launch, SetupError::ServerStart(s)) => s@ == out.errors@,
            _ => false,
        }),
{
    let errors = String::from_str(out.errors.as_str());
    match p {
        Phase::Probe => {
            if out.success {
                match arch {
                    Some(t) => Ok(Phase::Install(t)),
                    None => Ok(Phase::Detect),
                }
            } else {
                Err(SetupError::Connection(errors))
            }
        },
        Phase::Detect => {
            if out.success {
                let d = detect_from_output(out.output.as_str());
                Ok(Phase::Install(d.tag))
            } else {
                Err(SetupError::Detection(errors))
            }
        },
        Phase::Install(_) => {
            if out.success {
                Ok(Phase::Launch)
            } else {
                Err(SetupError::Install(errors))
            }
        },
        Phase::Launch => {
            if out.success {
                Ok(Phase::Finished)
            } else {
                Err(SetupError::ServerStart(errors))
            }
        },
        Phase::Finished => Ok(Phase::Finished),
    }
}

/// A log line of the server, stamped with `timestamp`.
pub fn log_line(timestamp: &str, line: &str) -> (r: String)
    ensures
        r@ == "["@ + timestamp@ + "] "@ + line@,
{
    let mut r = String::from_str("[");
    push_text(&mut r, timestamp);
    push_text(&mut r, "] ");
    push_text(&mut r, line);
    r
}

} // verus!
