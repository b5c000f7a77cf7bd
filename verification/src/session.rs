//! One request for the adapter, carried out step by step.
//!
//! The library decides and the host acts. A session hands the host one
//! [`Request`] at a time; the host carries it out and hands back a
//! [`Response`]; the session answers with the next request, until the
//! request is to finish. What the host reads from the network, the disk
//! and the project never enters a decision but through a response.

use vstd::prelude::*;
use crate::adapter::{claim, language_name, PythonDebugAdapter};
use crate::binary::{assembled, BinaryView, DebugAdapterBinary};
use crate::connection::{negotiate, negotiated, ConnectionParameters};
use crate::error::AdapterError;
use crate::installer::{
    adapter_directory, adapter_directory_of, find_by_prefix, first_match, flatten_moves,
    flattening, install_prefix, move_views, texts, version_directory, version_directory_of,
    wrapper_prefix, AdapterVersion, ArtifactKind, Move, MoveView,
};
use crate::task::{DebugTaskDefinition, HostAddress};
use crate::text::{join_path, joined};

verus! {

/// What the host is to do next.
#[derive(Debug)]
pub enum Request {
    /// Show `announcement` on the console, then ask the release registry
    /// for the newest release of the repository.
    FetchLatestVersion { announcement: String, repo_owner: String, repo_name: String },
    /// Download the archive at `url` and unpack it into `directory`.
    Download { url: String, kind: ArtifactKind, directory: String },
    /// Name the entries of `directory`.
    ListDirectory { directory: String },
    /// Carry out `moves` in their order, then remove the directory
    /// `remove`, which they have emptied.
    MoveEntries { moves: Vec<Move>, remove: String },
    /// Ask the project for the toolchain that it uses for `language`.
    ActiveToolchain { language: String },
    /// Look for the program `name` on the search path.
    Which { name: String },
    /// Find a port on `host` that is free.
    ChoosePort { host: HostAddress },
    /// Nothing is left to do: `outcome` is the adapter, or the reason why
    /// there is none.
    Finish { outcome: Result<DebugAdapterBinary, AdapterError> },
}

/// A `Request` by what it holds.
pub enum RequestView {
    FetchLatestVersion { announcement: Seq<char>, repo_owner: Seq<char>, repo_name: Seq<char> },
    Download { url: Seq<char>, kind: ArtifactKind, directory: Seq<char> },
    ListDirectory { directory: Seq<char> },
    MoveEntries { moves: Seq<MoveView>, remove: Seq<char> },
    ActiveToolchain { language: Seq<char> },
    Which { name: Seq<char> },
    ChoosePort { host: HostAddress },
    Finish { outcome: Result<BinaryView, AdapterError> },
}

impl View for Request {
    type V = RequestView;

    open spec fn view(&self) -> RequestView {
        match *self {
            Request::FetchLatestVersion { announcement, repo_owner, repo_name } => {
                RequestView::FetchLatestVersion {
                    announcement: announcement@,
                    repo_owner: repo_owner@,
                    repo_name: repo_name@,
                }
            },
            Request::Download { url, kind, directory } => RequestView::Download {
                url: url@,
                kind,
                directory: directory@,
            },
            Request::ListDirectory { directory } => RequestView::ListDirectory {
                directory: directory@,
            },
            Request::MoveEntries { moves, remove } => RequestView::MoveEntries {
                moves: move_views(moves@),
                remove: remove@,
            },
            Request::ActiveToolchain { language } => RequestView::ActiveToolchain {
                language: language@,
            },
            Request::Which { name } => RequestView::Which { name: name@ },
            Request::ChoosePort { host } => RequestView::ChoosePort { host },
            Request::Finish { outcome } => RequestView::Finish {
                outcome: match outcome {
                    Ok(binary) => Ok(binary@),
                    Err(error) => Err(error),
                },
            },
        }
    }
}

/// What the host found when it carried out a request.
#[derive(Debug)]
pub enum Response {
    /// The newest release.
    Version(AdapterVersion),
    /// The download, or the moves, are done.
    Done,
    /// The names of the entries of the directory.
    Entries(Vec<String>),
    /// The path of the interpreter, or none.
    Path(Option<String>),
    /// The free port, or none.
    Port(Option<u16>),
    /// The request could not be carried out.
    Failed(AdapterError),
}

/// How far a session has come: what it waits for.
pub enum StageView {
    /// For the newest release.
    FetchingVersion,
    /// For the archive to be unpacked into the directory.
    Downloading { version_directory: Seq<char> },
    /// For the entries of the directory of the release.
    ListingRelease { version_directory: Seq<char> },
    /// For the entries of the wrapper.
    ListingWrapper { version_directory: Seq<char>, wrapper: Seq<char> },
    /// For the moves out of the wrapper.
    Flattening,
    /// For a free port.
    ChoosingPort,
    /// For the entries of the adapter's directory.
    Scanning { adapter_directory: Seq<char> },
    /// For the project's toolchain.
    AskingToolchain { debugpy_directory: Seq<char> },
    /// For the search for the candidate at `candidate`.
    Probing { debugpy_directory: Seq<char>, candidate: nat },
    /// For nothing.
    Finished,
}

/// A `Session` by what it holds.
pub struct SessionView {
    pub task: DebugTaskDefinition,
    pub user_installed_path: Option<Seq<char>>,
    pub adapters_root: Seq<char>,
    pub connection: ConnectionParameters,
    pub check_failure: Option<AdapterError>,
    pub stage: StageView,
}

/// The line that tells the user of the release check.
pub open spec fn check_announcement() -> Seq<char> {
    "Checking latest version of Debugpy..."@
}

/// The owner of the repository that publishes the adapter.
pub open spec fn repository_owner() -> Seq<char> {
    "microsoft"@
}

/// The repository that publishes the adapter.
pub open spec fn repository_name() -> Seq<char> {
    "debugpy"@
}

/// How many names the interpreter is looked for under.
pub open spec fn candidate_count() -> nat {
    3
}

/// The name under which the interpreter is looked for at `place`:
/// `python3` first, then `python`, then `py`.
pub open spec fn candidate_name(place: nat) -> Seq<char> {
    if place == 0 {
        "python3"@
    } else if place == 1 {
        "python"@
    } else {
        "py"@
    }
}

/// The characters of an optional path.
pub open spec fn path_view(path: Option<String>) -> Option<Seq<char>> {
    match path {
        Some(path) => Some(path@),
        None => None,
    }
}

/// The parameters with `port` in place of their own, if there is one.
pub open spec fn with_chosen_port(
    connection: ConnectionParameters,
    port: Option<u16>,
) -> ConnectionParameters {
    match port {
        Some(port) => ConnectionParameters { port, ..connection },
        None => connection,
    }
}

impl SessionView {
    /// The session at another stage.
    pub open spec fn at(self, stage: StageView) -> SessionView {
        SessionView { stage, ..self }
    }

    /// Whether the task names the port itself.
    pub open spec fn port_is_given(self) -> bool {
        self.task.tcp_connection matches Some(template) && template.port is Some
    }

    /// The session ends without an adapter.
    pub open spec fn fail(self, error: AdapterError) -> (SessionView, RequestView) {
        (self.at(StageView::Finished), RequestView::Finish { outcome: Err(error) })
    }

    /// The session ends because the response does not answer the request.
    pub open spec fn refuse(self) -> (SessionView, RequestView) {
        self.fail(AdapterError::ConfigurationError)
    }

    /// The session ends with the adapter.
    pub open spec fn finish(self, debugpy_directory: Seq<char>, interpreter: Seq<char>) -> (
        SessionView,
        RequestView,
    ) {
        (
            self.at(StageView::Finished),
            RequestView::Finish {
                outcome: Ok(assembled(self.task, debugpy_directory, interpreter, self.connection)),
            },
        )
    }

    /// The release check begins: the newest release is asked for.
    pub open spec fn fetch_latest_adapter_version(self) -> (SessionView, RequestView) {
        (
            self.at(StageView::FetchingVersion),
            RequestView::FetchLatestVersion {
                announcement: check_announcement(),
                repo_owner: repository_owner(),
                repo_name: repository_name(),
            },
        )
    }

    /// The release `version` is installed: a zip archive is downloaded
    /// into the directory named after its tag; for any other form the check
    /// is given up.
    pub open spec fn install_binary(self, version: AdapterVersion) -> (SessionView, RequestView) {
        if version.kind == ArtifactKind::Zip {
            let directory = version_directory_of(self.adapters_root, version.tag_name@);
            (
                self.at(StageView::Downloading { version_directory: directory }),
                RequestView::Download { url: version.url@, kind: version.kind, directory },
            )
        } else {
            self.abandon_check(AdapterError::ExtractionError)
        }
    }

    /// The release check is given up for `error`, and the session goes on
    /// with what is installed.
    pub open spec fn abandon_check(self, error: AdapterError) -> (SessionView, RequestView) {
        (SessionView { check_failure: Some(error), ..self }).get_installed_binary()
    }

    /// The search for what is installed begins: with the port, if the
    /// task leaves it open, else with the adapter's directory.
    pub open spec fn get_installed_binary(self) -> (SessionView, RequestView) {
        if self.port_is_given() {
            self.locate()
        } else {
            (
                self.at(StageView::ChoosingPort),
                RequestView::ChoosePort { host: self.connection.host },
            )
        }
    }

    /// The adapter's directory is settled: the one that the caller gave,
    /// or else the one to be found below the root for all adapters.
    pub open spec fn locate(self) -> (SessionView, RequestView) {
        match self.user_installed_path {
            Some(path) => self.ask_toolchain(path),
            None => {
                let directory = adapter_directory_of(self.adapters_root);
                (
                    self.at(StageView::Scanning { adapter_directory: directory }),
                    RequestView::ListDirectory { directory },
                )
            },
        }
    }

    /// The project is asked for its toolchain.
    pub open spec fn ask_toolchain(self, debugpy_directory: Seq<char>) -> (
        SessionView,
        RequestView,
    ) {
        (
            self.at(StageView::AskingToolchain { debugpy_directory }),
            RequestView::ActiveToolchain { language: language_name() },
        )
    }

    /// The search path is asked for the candidate at `candidate`.
    pub open spec fn probe(self, debugpy_directory: Seq<char>, candidate: nat) -> (
        SessionView,
        RequestView,
    ) {
        (
            self.at(StageView::Probing { debugpy_directory, candidate }),
            RequestView::Which { name: candidate_name(candidate) },
        )
    }

    /// What the session does on `reply`: the session after it, and the
    /// next request.
    pub open spec fn step(self, reply: Response) -> (SessionView, RequestView) {
        match self.stage {
            StageView::FetchingVersion => match reply {
                Response::Version(version) => self.install_binary(version),
                Response::Failed(error) => self.abandon_check(error),
                _ => self.refuse(),
            },
            StageView::Downloading { version_directory } => match reply {
                Response::Done => (
                    self.at(StageView::ListingRelease { version_directory }),
                    RequestView::ListDirectory { directory: version_directory },
                ),
                Response::Failed(error) => self.abandon_check(error),
                _ => self.refuse(),
            },
            StageView::ListingRelease { version_directory } => match reply {
                Response::Entries(names) => match first_match(texts(names@), wrapper_prefix()) {
                    Some(place) => {
                        let wrapper = joined(version_directory, texts(names@)[place]);
                        (
                            self.at(StageView::ListingWrapper { version_directory, wrapper }),
                            RequestView::ListDirectory { directory: wrapper },
                        )
                    },
                    None => self.get_installed_binary(),
                },
                Response::Failed(error) => self.abandon_check(error),
                _ => self.refuse(),
            },
            StageView::ListingWrapper { version_directory, wrapper } => match reply {
                Response::Entries(children) => (
                    self.at(StageView::Flattening),
                    RequestView::MoveEntries {
                        moves: flattening(version_directory, wrapper, texts(children@)),
                        remove: wrapper,
                    },
                ),
                Response::Failed(error) => self.abandon_check(error),
                _ => self.refuse(),
            },
            StageView::Flattening => match reply {
                Response::Done => self.get_installed_binary(),
                Response::Failed(error) => self.abandon_check(error),
                _ => self.refuse(),
            },
            StageView::ChoosingPort => match reply {
                Response::Port(port) => (SessionView {
                    connection: with_chosen_port(self.connection, port),
                    ..self
                }).locate(),
                _ => self.refuse(),
            },
            StageView::Scanning { adapter_directory } => match reply {
                Response::Entries(names) => match first_match(texts(names@), install_prefix()) {
                    Some(place) => self.ask_toolchain(
                        joined(adapter_directory, texts(names@)[place]),
                    ),
                    None => self.fail(AdapterError::NotInstalled),
                },
                Response::Failed(_) => self.fail(AdapterError::NotInstalled),
                _ => self.refuse(),
            },
            StageView::AskingToolchain { debugpy_directory } => match reply {
                Response::Path(Some(path)) => self.finish(debugpy_directory, path@),
                Response::Path(None) => self.probe(debugpy_directory, 0),
                _ => self.refuse(),
            },
            StageView::Probing { debugpy_directory, candidate } => match reply {
                Response::Path(Some(path)) => self.finish(debugpy_directory, path@),
                Response::Path(None) => if candidate + 1 < candidate_count() {
                    self.probe(debugpy_directory, candidate + 1)
                } else {
                    self.fail(AdapterError::InterpreterNotFound)
                },
                _ => self.refuse(),
            },
            StageView::Finished => self.refuse(),
        }
    }
}

/// The session with which a request for the adapter begins, and its first
/// request: the release check where the caller `claimed` it, else the
/// search for what is installed.
pub open spec fn begin(
    claimed: bool,
    task: DebugTaskDefinition,
    user_installed_path: Option<Seq<char>>,
    adapters_root: Seq<char>,
) -> (SessionView, RequestView) {
    let session = SessionView {
        task,
        user_installed_path,
        adapters_root,
        connection: negotiated(task.tcp_connection),
        check_failure: None,
        stage: StageView::Finished,
    };
    if claimed {
        session.fetch_latest_adapter_version()
    } else {
        session.get_installed_binary()
    }
}

#[derive(Debug)]
enum Stage {
    FetchingVersion,
    Downloading { version_directory: String },
    ListingRelease { version_directory: String },
    ListingWrapper { version_directory: String, wrapper: String },
    Flattening,
    ChoosingPort,
    Scanning { adapter_directory: String },
    AskingToolchain { debugpy_directory: String },
    Probing { debugpy_directory: String, candidate: usize },
    Finished,
}

impl View for Stage {
    type V = StageView;

    closed spec fn view(&self) -> StageView {
        match *self {
            Stage::FetchingVersion => StageView::FetchingVersion,
            Stage::Downloading { version_directory } => StageView::Downloading {
                version_directory: version_directory@,
            },
            Stage::ListingRelease { version_directory } => StageView::ListingRelease {
                version_directory: version_directory@,
            },
            Stage::ListingWrapper { version_directory, wrapper } => StageView::ListingWrapper {
                version_directory: version_directory@,
                wrapper: wrapper@,
            },
            Stage::Flattening => StageView::Flattening,
            Stage::ChoosingPort => StageView::ChoosingPort,
            Stage::Scanning { adapter_directory } => StageView::Scanning {
                adapter_directory: adapter_directory@,
            },
            Stage::AskingToolchain { debugpy_directory } => StageView::AskingToolchain {
                debugpy_directory: debugpy_directory@,
            },
            Stage::Probing { debugpy_directory, candidate } => StageView::Probing {
                debugpy_directory: debugpy_directory@,
                candidate: candidate as nat,
            },
            Stage::Finished => StageView::Finished,
        }
    }
}

/// One request for the adapter, between its first request to the host and
/// its last.
#[derive(Debug)]
pub struct Session {
    task: DebugTaskDefinition,
    user_installed_path: Option<String>,
    adapters_root: String,
    connection: ConnectionParameters,
    check_failure: Option<AdapterError>,
    stage: Stage,
}

impl View for Session {
    type V = SessionView;

    closed spec fn view(&self) -> SessionView {
        SessionView {
            task: self.task,
            user_installed_path: path_view(self.user_installed_path),
            adapters_root: self.adapters_root@,
            connection: self.connection,
            check_failure: self.check_failure,
            stage: self.stage@,
        }
    }
}

fn candidate(place: usize) -> (name: &'static str)
    ensures
        name@ == candidate_name(place as nat),
{
    if place == 0 {
        "python3"
    } else if place == 1 {
        "python"
    } else {
        "py"
    }
}

impl Session {
    /// Why the release check was given up, if it was.
    pub fn check_failure(&self) -> (failure: Option<AdapterError>)
        ensures
            failure == self@.check_failure,
    {
        self.check_failure
    }

    /// Whether the session has made its last request.
    pub fn is_finished(&self) -> (finished: bool)
        ensures
            finished == (self@.stage is Finished),
    {
        match self.stage {
            Stage::Finished => true,
            _ => false,
        }
    }

    fn at(self, stage: Stage) -> (moved: Session)
        ensures
            moved@ == self@.at(stage@),
    {
        Session {
            task: self.task,
            user_installed_path: self.user_installed_path,
            adapters_root: self.adapters_root,
            connection: self.connection,
            check_failure: self.check_failure,
            stage,
        }
    }

    fn fail(self, error: AdapterError) -> (next: (Session, Request))
        ensures
            (next.0@, next.1@) == self@.fail(error),
    {
        (self.at(Stage::Finished), Request::Finish { outcome: Err(error) })
    }

    fn refuse(self) -> (next: (Session, Request))
        ensures
            (next.0@, next.1@) == self@.refuse(),
    {
        self.fail(AdapterError::ConfigurationError)
    }

    fn finish(self, debugpy_directory: String, interpreter: String) -> (next: (Session, Request))
        ensures
            (next.0@, next.1@) == self@.finish(debugpy_directory@, interpreter@),
    {
        let binary = DebugAdapterBinary::assemble(
            &self.task,
            debugpy_directory.as_str(),
            interpreter,
            self.connection,
        );
        (self.at(Stage::Finished), Request::Finish { outcome: Ok(binary) })
    }

    fn fetch_latest_adapter_version(self) -> (next: (Session, Request))
        ensures
            (next.0@, next.1@) == self@.fetch_latest_adapter_version(),
    {
        let request = Request::FetchLatestVersion {
            announcement: "Checking latest version of Debugpy...".to_owned(),
            repo_owner: "microsoft".to_owned(),
            repo_name: "debugpy".to_owned(),
        };
        (self.at(Stage::FetchingVersion), request)
    }

    fn install_binary(self, version: AdapterVersion) -> (next: (Session, Request))
        ensures
            (next.0@, next.1@) == self@.install_binary(version),
    {
        match version.kind {
            ArtifactKind::Zip => {
                let directory = version_directory(
                    self.adapters_root.as_str(),
                    version.tag_name.as_str(),
                );
                let request = Request::Download {
                    url: version.url,
                    kind: version.kind,
                    directory: directory.clone(),
                };
                (self.at(Stage::Downloading { version_directory: directory }), request)
            },
            _ => self.abandon_check(AdapterError::ExtractionError),
        }
    }

    fn abandon_check(self, error: AdapterError) -> (next: (Session, Request))
        ensures
            (next.0@, next.1@) == self@.abandon_check(error),
    {
        let noted = Session {
            task: self.task,
            user_installed_path: self.user_installed_path,
            adapters_root: self.adapters_root,
            connection: self.connection,
            check_failure: Some(error),
            stage: self.stage,
        };
        noted.get_installed_binary()
    }

    fn get_installed_binary(self) -> (next: (Session, Request))
        ensures
            (next.0@, next.1@) == self@.get_installed_binary(),
    {
        let given = match self.task.tcp_connection {
            Some(template) => template.port.is_some(),
            None => false,
        };
        if given {
            self.locate()
        } else {
            let request = Request::ChoosePort { host: self.connection.host };
            (self.at(Stage::ChoosingPort), request)
        }
    }

    fn locate(self) -> (next: (Session, Request))
        ensures
            (next.0@, next.1@) == self@.locate(),
    {
        let Session { task, user_installed_path, adapters_root, connection, check_failure, stage } =
            self;
        match user_installed_path {
            Some(path) => {
                let held = Session {
                    task,
                    user_installed_path: Some(path.clone()),
                    adapters_root,
                    connection,
                    check_failure,
                    stage,
                };
                held.ask_toolchain(path)
            },
            None => {
                let directory = adapter_directory(adapters_root.as_str());
                let held = Session {
                    task,
                    user_installed_path: None,
                    adapters_root,
                    connection,
                    check_failure,
                    stage,
                };
                let request = Request::ListDirectory { directory: directory.clone() };
                (held.at(Stage::Scanning { adapter_directory: directory }), request)
            },
        }
    }

    fn ask_toolchain(self, debugpy_directory: String) -> (next: (Session, Request))
        ensures
            (next.0@, next.1@) == self@.ask_toolchain(debugpy_directory@),
    {
        let request = Request::ActiveToolchain { language: "Python".to_owned() };
        (self.at(Stage::AskingToolchain { debugpy_directory }), request)
    }

    fn probe(self, debugpy_directory: String, place: usize) -> (next: (Session, Request))
        ensures
            (next.0@, next.1@) == self@.probe(debugpy_directory@, place as nat),
    {
        let request = Request::Which { name: candidate(place).to_owned() };
        (self.at(Stage::Probing { debugpy_directory, candidate: place }), request)
    }

    /// Takes the host's response to the request that was made last, and
    /// makes the next request.
    ///
    /// A failure of the release check is noted and the session goes on
    /// with what is installed. The session ends with `NotInstalled` where
    /// no directory of the adapter is found, with `InterpreterNotFound`
    /// where neither the project nor the search path has an interpreter,
    /// and with `ConfigurationError` where the response does not answer the
    /// request.
    pub fn advance(self, reply: Response) -> (next: (Session, Request))
        ensures
            (next.0@, next.1@) == self@.step(reply),
    {
        let Session { task, user_installed_path, adapters_root, connection, check_failure, stage } =
            self;
        let held = Session {
            task,
            user_installed_path,
            adapters_root,
            connection,
            check_failure,
            stage: Stage::Finished,
        };
        match stage {
            Stage::FetchingVersion => match reply {
                Response::Version(version) => held.install_binary(version),
                Response::Failed(error) => held.abandon_check(error),
                _ => held.refuse(),
            },
            Stage::Downloading { version_directory } => match reply {
                Response::Done => {
                    let request = Request::ListDirectory { directory: version_directory.clone() };
                    (held.at(Stage::ListingRelease { version_directory }), request)
                },
                Response::Failed(error) => held.abandon_check(error),
                _ => held.refuse(),
            },
            Stage::ListingRelease { version_directory } => match reply {
                Response::Entries(names) => match find_by_prefix(&names, "microsoft-debugpy-") {
                    Some(place) => {
                        let wrapper = join_path(version_directory.as_str(), names[place].as_str());
                        let request = Request::ListDirectory { directory: wrapper.clone() };
                        (held.at(Stage::ListingWrapper { version_directory, wrapper }), request)
                    },
                    None => held.get_installed_binary(),
                },
                Response::Failed(error) => held.abandon_check(error),
                _ => held.refuse(),
            },
            Stage::ListingWrapper { version_directory, wrapper } => match reply {
                Response::Entries(children) => {
                    let moves = flatten_moves(
                        version_directory.as_str(),
                        wrapper.as_str(),
                        &children,
                    );
                    (held.at(Stage::Flattening), Request::MoveEntries { moves, remove: wrapper })
                },
                Response::Failed(error) => held.abandon_check(error),
                _ => held.refuse(),
            },
            Stage::Flattening => match reply {
                Response::Done => held.get_installed_binary(),
                Response::Failed(error) => held.abandon_check(error),
                _ => held.refuse(),
            },
            Stage::ChoosingPort => match reply {
                Response::Port(port) => {
                    let settled = Session {
                        task: held.task,
                        user_installed_path: held.user_installed_path,
                        adapters_root: held.adapters_root,
                        connection: match port {
                            Some(port) => ConnectionParameters {
                                host: held.connection.host,
                                port,
                                timeout: held.connection.timeout,
                            },
                            None => held.connection,
                        },
                        check_failure: held.check_failure,
                        stage: held.stage,
                    };
                    settled.locate()
                },
                _ => held.refuse(),
            },
            Stage::Scanning { adapter_directory } => match reply {
                Response::Entries(names) => match find_by_prefix(&names, "Debugpy_") {
                    Some(place) => {
                        let found = names[place].as_str();
                        held.ask_toolchain(join_path(adapter_directory.as_str(), found))
                    },
                    None => held.fail(AdapterError::NotInstalled),
                },
                Response::Failed(_) => held.fail(AdapterError::NotInstalled),
                _ => held.refuse(),
            },
            Stage::AskingToolchain { debugpy_directory } => match reply {
                Response::Path(Some(path)) => held.finish(debugpy_directory, path),
                Response::Path(None) => held.probe(debugpy_directory, 0),
                _ => held.refuse(),
            },
            Stage::Probing { debugpy_directory, candidate } => match reply {
                Response::Path(Some(path)) => held.finish(debugpy_directory, path),
                Response::Path(None) => if candidate < 2 {
                    held.probe(debugpy_directory, candidate + 1)
                } else {
                    held.fail(AdapterError::InterpreterNotFound)
                },
                _ => held.refuse(),
            },
            Stage::Finished => held.refuse(),
        }
    }
}

impl PythonDebugAdapter {
    /// Begins a request for the adapter that runs the session `config`.
    ///
    /// The first request on an adapter claims the release check and begins
    /// with it; every later one goes straight to what is installed, in
    /// `user_installed_path` if the caller gives one, else below
    /// `adapters_root`.
    pub fn get_binary(
        &mut self,
        config: DebugTaskDefinition,
        user_installed_path: Option<String>,
        adapters_root: String,
    ) -> (begun: (Session, Request))
        ensures
            final(self).checked() == claim(old(self).checked()).0,
            (begun.0@, begun.1@) == begin(
                claim(old(self).checked()).1,
                config,
                path_view(user_installed_path),
                adapters_root@,
            ),
    {
        let claimed = self.claim_check();
        let connection = negotiate(config.tcp_connection);
        let session = Session {
            task: config,
            user_installed_path,
            adapters_root,
            connection,
            check_failure: None,
            stage: Stage::Finished,
        };
        if claimed {
            session.fetch_latest_adapter_version()
        } else {
            session.get_installed_binary()
        }
    }
}

} // verus!
