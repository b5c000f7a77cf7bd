//! The adapter as a process to start: command, arguments, channel and the
//! arguments of the session.

use vstd::prelude::*;
use crate::connection::ConnectionParameters;
use crate::json::{json_of, Json};
use crate::request::{request_members, RequestArguments};
use crate::task::{DebugTaskDefinition, HostAddress, RequestKind};
use crate::text::{followed_by, decimal, join_path, joined, to_decimal};

verus! {

/// All that is needed to start the adapter and open a session with it.
#[derive(Debug)]
pub struct DebugAdapterBinary {
    pub command: String,
    pub arguments: Vec<String>,
    pub connection: Option<ConnectionParameters>,
    pub working_directory: Option<String>,
    pub environment: Vec<(String, String)>,
    pub request_args: RequestArguments,
}

/// A `DebugAdapterBinary` by what it holds.
pub struct BinaryView {
    pub command: Seq<char>,
    pub arguments: Seq<Seq<char>>,
    pub connection: Option<ConnectionParameters>,
    pub working_directory: Option<Seq<char>>,
    pub environment: Seq<(Seq<char>, Seq<char>)>,
    pub configuration: Json,
    pub request: RequestKind,
}

impl View for DebugAdapterBinary {
    type V = BinaryView;

    open spec fn view(&self) -> BinaryView {
        BinaryView {
            command: self.command@,
            arguments: self.arguments@.map_values(|argument: String| argument@),
            connection: self.connection,
            working_directory: match self.working_directory {
                Some(directory) => Some(directory@),
                None => None,
            },
            environment: self.environment@.map_values(
                |variable: (String, String)| (variable.0@, variable.1@),
            ),
            configuration: json_of(self.request_args.configuration),
            request: self.request_args.request,
        }
    }
}

/// The adapter's entry point, as seen from the directory of a release.
pub open spec fn adapter_path() -> Seq<char> {
    "src/debugpy/adapter"@
}

/// `host` in dotted decimal notation.
pub open spec fn dotted(host: HostAddress) -> Seq<char> {
    decimal(host.a as nat) + "."@ + decimal(host.b as nat) + "."@ + decimal(host.c as nat) + "."@
        + decimal(host.d as nat)
}

/// The arguments with which the interpreter runs the adapter: the entry
/// point, then the port and the host to listen on.
pub open spec fn adapter_arguments(
    debugpy_directory: Seq<char>,
    connection: ConnectionParameters,
) -> Seq<Seq<char>> {
    seq![
        joined(debugpy_directory, adapter_path()),
        "--port="@ + decimal(connection.port as nat),
        "--host="@ + dotted(connection.host),
    ]
}

/// The adapter of the release in `debugpy_directory`, run by `interpreter`
/// and reached over `connection`, for the session that `task` describes.
pub open spec fn assembled(
    task: DebugTaskDefinition,
    debugpy_directory: Seq<char>,
    interpreter: Seq<char>,
    connection: ConnectionParameters,
) -> BinaryView {
    BinaryView {
        command: interpreter,
        arguments: adapter_arguments(debugpy_directory, connection),
        connection: Some(connection),
        working_directory: None,
        environment: Seq::empty(),
        configuration: Json::Object(request_members(task)),
        request: task.request.kind_of(),
    }
}

/// Writes `host` in dotted decimal notation.
pub fn host_text(host: HostAddress) -> (text: String)
    ensures
        text@ == dotted(host),
{
    let mut text = to_decimal(host.a as u64);
    text.append(".");
    text.append(to_decimal(host.b as u64).as_str());
    text.append(".");
    text.append(to_decimal(host.c as u64).as_str());
    text.append(".");
    text.append(to_decimal(host.d as u64).as_str());
    text
}

impl DebugAdapterBinary {
    /// Puts together what starts the adapter: the interpreter as the
    /// command; the adapter's entry point below `debugpy_directory`, the
    /// port and the host as its arguments; the connection; and the
    /// arguments of the session. The process gets no working directory and
    /// no variables of its own.
    pub fn assemble(
        config: &DebugTaskDefinition,
        debugpy_directory: &str,
        interpreter: String,
        connection: ConnectionParameters,
    ) -> (binary: DebugAdapterBinary)
        ensures
            binary@ == assembled(*config, debugpy_directory@, interpreter@, connection),
    {
        let mut arguments: Vec<String> = Vec::new();
        arguments.push(join_path(debugpy_directory, "src/debugpy/adapter"));
        arguments.push(followed_by("--port=", to_decimal(connection.port as u64).as_str()));
        arguments.push(followed_by("--host=", host_text(connection.host).as_str()));
        let binary = DebugAdapterBinary {
            command: interpreter,
            arguments,
            connection: Some(connection),
            working_directory: None,
            environment: Vec::new(),
            request_args: RequestArguments::build(config),
        };
        assert(binary@.arguments =~= adapter_arguments(debugpy_directory@, connection));
        assert(binary@.environment =~= Seq::empty());
        binary
    }
}

} // verus!
