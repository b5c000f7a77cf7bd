//! What a caller asks for: one debug session, to be launched or attached.

use vstd::prelude::*;

verus! {

/// The IPv4 address of the host on which the adapter listens.
#[derive(Clone, Copy, Debug, PartialEq, Eq, Structural)]
pub struct HostAddress {
    pub a: u8,
    pub b: u8,
    pub c: u8,
    pub d: u8,
}

/// The caller's wishes for the channel between client and adapter. A field
/// left unset falls back to its default.
#[derive(Clone, Copy, Debug, PartialEq, Eq, Structural)]
pub struct PartialConnectionSpec {
    pub host: Option<HostAddress>,
    pub port: Option<u16>,
    pub timeout: Option<u64>,
}

/// Start a program under the debugger.
#[derive(Clone, Debug)]
pub struct LaunchRequest {
    pub program: String,
    pub args: Vec<String>,
    /// Environment variables as name and value. Where a name occurs more
    /// than once, its last value counts.
    pub env: Vec<(String, String)>,
    pub cwd: Option<String>,
}

/// Attach the debugger to a process that already runs.
#[derive(Clone, Copy, Debug, PartialEq, Eq, Structural)]
pub struct AttachRequest {
    pub process_id: u32,
}

/// The two ways to start a session.
#[derive(Clone, Debug)]
pub enum DebugRequest {
    Launch(LaunchRequest),
    Attach(AttachRequest),
}

/// The mode of a session, without the fields that belong to it.
#[derive(Clone, Copy, Debug, PartialEq, Eq, Structural)]
pub enum RequestKind {
    Launch,
    Attach,
}

/// One debug session as the caller describes it.
#[derive(Clone, Debug)]
pub struct DebugTaskDefinition {
    pub request: DebugRequest,
    /// Whether to stop at the first statement. Read for a launch only.
    pub stop_on_entry: Option<bool>,
    pub tcp_connection: Option<PartialConnectionSpec>,
}

impl DebugRequest {
    /// The mode that this request stands for.
    pub open spec fn kind_of(self) -> RequestKind {
        match self {
            DebugRequest::Launch(_) => RequestKind::Launch,
            DebugRequest::Attach(_) => RequestKind::Attach,
        }
    }

    /// The mode that this request stands for.
    pub fn kind(&self) -> (kind: RequestKind)
        ensures
            kind == self.kind_of(),
    {
        match self {
            DebugRequest::Launch(_) => RequestKind::Launch,
            DebugRequest::Attach(_) => RequestKind::Attach,
        }
    }
}

impl RequestKind {
    /// The word by which the adapter protocol names this mode.
    pub open spec fn word(self) -> Seq<char> {
        match self {
            RequestKind::Launch => "launch"@,
            RequestKind::Attach => "attach"@,
        }
    }

    /// The word by which the adapter protocol names this mode.
    pub fn as_str(&self) -> (word: &'static str)
        ensures
            word@ == self.word(),
    {
        match self {
            RequestKind::Launch => "launch",
            RequestKind::Attach => "attach",
        }
    }
}

} // verus!
