use vstd::prelude::*;
use crate::text::push_text;

verus! {

/// Why a run stopped. Each kind carries the captured error output of the
/// remote command that failed, or the text of the local failure.
#[derive(Clone, Debug, PartialEq, Eq)]
pub enum SetupError {
    /// The no-op probe command failed.
    Connection(String),
    /// The hardware-identifier command failed.
    Detection(String),
    /// The install script exited nonzero.
    Install(String),
    /// The launched server died within the verification window.
    ServerStart(String),
    /// The session record could not be written or read.
    Io(String),
}

/// The heading that introduces an error of each kind.
pub open spec fn heading_of(e: SetupError) -> Seq<char> {
    match e {
        SetupError::Connection(_) => "connection failed: "@,
        SetupError::Detection(_) => "failed to detect remote architecture: "@,
        SetupError::Install(_) => "installation failed: "@,
        SetupError::ServerStart(_) => "server failed to start (likely an architecture mismatch; try --arch linux-arm64 or --arch linux-x64): "@,
        SetupError::Io(_) => "session file error: "@,
    }
}

/// The text an error carries.
pub open spec fn detail_of(e: SetupError) -> Seq<char> {
    match e {
        SetupError::Connection(s) => s@,
        SetupError::Detection(s) => s@,
        SetupError::Install(s) => s@,
        SetupError::ServerStart(s) => s@,
        SetupError::Io(s) => s@,
    }
}

impl SetupError {
    /// The message shown to the operator: the kind's heading, then the
    /// captured output verbatim.
    pub fn message(&self) -> (r: String)
        ensures
            r@ == heading_of(*self) + detail_of(*self),
    {
        let (heading, detail) = match self {
            SetupError::Connection(s) => ("connection failed: ", s),
            SetupError::Detection(s) => ("failed to detect remote architecture: ", s),
            SetupError::Install(s) => ("installation failed: ", s),
            SetupError::ServerStart(s) => (
                "server failed to start (likely an architecture mismatch; try --arch linux-arm64 or --arch linux-x64): ",
                s,
            ),
            SetupError::Io(s) => ("session file error: ", s),
        };
        let mut r = String::from_str(heading);
        push_text(&mut r, detail.as_str());
        r
    }
}

} // verus!
