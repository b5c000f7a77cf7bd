//! Bootstrap and configuration of the debugpy debug adapter: which release
//! to install and how to lay it out on disk, which interpreter runs it, how
//! the client connects to it, and the arguments that start a session.
//!
//! The crate decides and leaves every act to its host. A request for the
//! adapter begins with [`PythonDebugAdapter::get_binary`], which hands back
//! a [`Session`] and the first [`Request`]. The host carries the request
//! out and gives its [`Response`] to [`Session::advance`], until the
//! request is [`Request::Finish`], which holds the [`DebugAdapterBinary`]
//! or the [`AdapterError`].
//!
//! - [`adapter`]: the adapter and the flag of its one release check.
//! - [`session`]: the steps of a request and what each response leads to.
//! - [`hosting`]: what a request comes to against a given host.
//! - [`installer`]: release directories and the flattening of an archive.
//! - [`connection`]: host, port and timeout, with their defaults.
//! - [`request`]: the arguments of a session, as a JSON object.
//! - [`binary`]: the command line of the adapter.
//! - [`task`], [`error`], [`text`], [`json`]: what the others are made of.

pub mod adapter;
pub mod binary;
pub mod connection;
pub mod error;
pub mod hosting;
pub mod installer;
pub mod json;
pub mod request;
pub mod session;
pub mod task;
pub mod text;

pub use adapter::PythonDebugAdapter;
pub use binary::DebugAdapterBinary;
pub use connection::{negotiate, ConnectionParameters, DEFAULT_PORT, DEFAULT_TIMEOUT};
pub use error::AdapterError;
pub use installer::{AdapterVersion, ArtifactKind, Move};
pub use request::RequestArguments;
pub use session::{Request, Response, Session};
pub use task::{
    AttachRequest, DebugRequest, DebugTaskDefinition, HostAddress, LaunchRequest,
    PartialConnectionSpec, RequestKind,
};
