//! A session against a host: that it ends, and what it ends with.
//!
//! A host is taken here as a function from requests to responses. Whatever
//! such a host answers, a session ends after a bounded number of steps;
//! and where every answer is of a kind that its request admits, the
//! outcome is the one that [`resolved`] states directly.

use vstd::prelude::*;
use crate::adapter::{claim, language_name};
use crate::binary::{assembled, BinaryView};
use crate::connection::{negotiated, ConnectionParameters};
use crate::error::AdapterError;
use crate::installer::{
    adapter_directory_of, first_match, flattening, install_prefix, lemma_first_match, texts,
    wrapper_prefix, ArtifactKind,
};
use crate::session::{
    begin, candidate_count, candidate_name, with_chosen_port, RequestView, Response, SessionView,
    StageView,
};
use crate::task::DebugTaskDefinition;
use crate::text::joined;

verus! {

/// A host by its answers.
pub type Host = spec_fn(RequestView) -> Response;

/// Whether `reply` is of a kind that `request` admits.
pub open spec fn fits(request: RequestView, reply: Response) -> bool {
    match request {
        RequestView::FetchLatestVersion { .. } => reply is Version || reply is Failed,
        RequestView::Download { .. } => reply is Done || reply is Failed,
        RequestView::ListDirectory { .. } => reply is Entries || reply is Failed,
        RequestView::MoveEntries { .. } => reply is Done || reply is Failed,
        RequestView::ActiveToolchain { .. } => reply is Path,
        RequestView::Which { .. } => reply is Path,
        RequestView::ChoosePort { .. } => reply is Port,
        RequestView::Finish { .. } => false,
    }
}

/// Whether every answer of `host` is of a kind that its request admits.
pub open spec fn obliging(host: Host) -> bool {
    forall|request: RequestView| !(request is Finish) ==> #[trigger] fits(request, host(request))
}

/// Whether `request` is what a session at `stage` has asked.
pub open spec fn pending(stage: StageView, request: RequestView) -> bool {
    match stage {
        StageView::FetchingVersion => request is FetchLatestVersion,
        StageView::Downloading { version_directory } => request matches RequestView::Download {
            directory,
            ..
        } && directory == version_directory,
        StageView::ListingRelease { version_directory } => request
            == (RequestView::ListDirectory { directory: version_directory }),
        StageView::ListingWrapper { wrapper, .. } => request == (RequestView::ListDirectory {
            directory: wrapper,
        }),
        StageView::Flattening => request is MoveEntries,
        StageView::ChoosingPort => request is ChoosePort,
        StageView::Scanning { adapter_directory } => request == (RequestView::ListDirectory {
            directory: adapter_directory,
        }),
        StageView::AskingToolchain { .. } => request == (RequestView::ActiveToolchain {
            language: language_name(),
        }),
        StageView::Probing { candidate, .. } => request == (RequestView::Which {
            name: candidate_name(candidate),
        }),
        StageView::Finished => request is Finish,
    }
}

/// How many responses a session at `stage` can take at most before it
/// ends.
pub open spec fn steps_left(stage: StageView) -> nat {
    match stage {
        StageView::FetchingVersion => 12,
        StageView::Downloading { .. } => 11,
        StageView::ListingRelease { .. } => 10,
        StageView::ListingWrapper { .. } => 9,
        StageView::Flattening => 8,
        StageView::ChoosingPort => 7,
        StageView::Scanning { .. } => 6,
        StageView::AskingToolchain { .. } => 5,
        StageView::Probing { candidate, .. } => if candidate < candidate_count() {
            (4 - candidate) as nat
        } else {
            1
        },
        StageView::Finished => 0,
    }
}

/// Each response brings a session nearer to its end, and the request that
/// follows is the one that the new stage waits on.
pub proof fn lemma_step_goes_forward(session: SessionView, reply: Response)
    ensures
        !(session.stage is Finished) ==> steps_left(session.step(reply).0.stage) < steps_left(
            session.stage,
        ),
        pending(session.step(reply).0.stage, session.step(reply).1),
        session.step(reply).0.stage is Finished <==> session.step(reply).1 is Finish,
{
}

/// A session begins with the request that its first stage waits on, and
/// ends within twelve responses.
pub proof fn lemma_begin_is_in_step(
    claimed: bool,
    task: DebugTaskDefinition,
    user_installed_path: Option<Seq<char>>,
    adapters_root: Seq<char>,
)
    ensures
        pending(
            begin(claimed, task, user_installed_path, adapters_root).0.stage,
            begin(claimed, task, user_installed_path, adapters_root).1,
        ),
        steps_left(begin(claimed, task, user_installed_path, adapters_root).0.stage) <= 12,
        !(begin(claimed, task, user_installed_path, adapters_root).1 is Finish),
{
}

/// What a session ends with when `host` answers `request` and every
/// request after it.
pub open spec fn outcome(
    session: SessionView,
    request: RequestView,
    host: Host,
) -> Result<BinaryView, AdapterError>
    decreases steps_left(session.stage),
{
    match request {
        RequestView::Finish { outcome } => outcome,
        _ => if session.stage is Finished {
            Err(AdapterError::ConfigurationError)
        } else {
            let next = session.step(host(request));
            outcome(next.0, next.1, host)
        },
    }
}

/// The directory of the adapter: the one that the caller gave, or else the
/// first below the adapter's directory that is named as an installed
/// release is.
pub open spec fn located(
    user_installed_path: Option<Seq<char>>,
    adapters_root: Seq<char>,
    host: Host,
) -> Option<Seq<char>> {
    match user_installed_path {
        Some(path) => Some(path),
        None => {
            let directory = adapter_directory_of(adapters_root);
            match host(RequestView::ListDirectory { directory }) {
                Response::Entries(names) => match first_match(texts(names@), install_prefix()) {
                    Some(place) => Some(joined(directory, texts(names@)[place])),
                    None => None,
                },
                _ => None,
            }
        },
    }
}

/// The first interpreter that the search path has under a candidate name
/// from `place` on.
pub open spec fn first_found(host: Host, place: nat) -> Option<Seq<char>>
    decreases candidate_count() - place,
{
    if place >= candidate_count() {
        None
    } else {
        match host(RequestView::Which { name: candidate_name(place) }) {
            Response::Path(Some(path)) => Some(path@),
            _ => first_found(host, place + 1),
        }
    }
}

/// The interpreter: the one of the project's toolchain, or else the first
/// that the search path has under a candidate name.
pub open spec fn interpreter(host: Host) -> Option<Seq<char>> {
    match host(RequestView::ActiveToolchain { language: language_name() }) {
        Response::Path(Some(path)) => Some(path@),
        _ => first_found(host, 0),
    }
}

/// The connection: as negotiated from the task, with the port that the
/// host chose where the task names none.
pub open spec fn settled(task: DebugTaskDefinition, host: Host) -> ConnectionParameters {
    let wished = negotiated(task.tcp_connection);
    if task.tcp_connection matches Some(template) && template.port is Some {
        wished
    } else {
        match host(RequestView::ChoosePort { host: wished.host }) {
            Response::Port(port) => with_chosen_port(wished, port),
            _ => wished,
        }
    }
}

/// What a request for the adapter comes to at `host`: `NotInstalled`
/// where no directory of the adapter is found, else `InterpreterNotFound`
/// where no interpreter is found, else the adapter.
pub open spec fn resolved(
    task: DebugTaskDefinition,
    user_installed_path: Option<Seq<char>>,
    adapters_root: Seq<char>,
    host: Host,
) -> Result<BinaryView, AdapterError> {
    match located(user_installed_path, adapters_root, host) {
        None => Err(AdapterError::NotInstalled),
        Some(directory) => match interpreter(host) {
            None => Err(AdapterError::InterpreterNotFound),
            Some(path) => Ok(assembled(task, directory, path, settled(task, host))),
        },
    }
}

/// What is left of a request once the directory is known.
pub open spec fn resolved_in(
    session: SessionView,
    directory: Seq<char>,
    found: Option<Seq<char>>,
) -> Result<BinaryView, AdapterError> {
    match found {
        None => Err(AdapterError::InterpreterNotFound),
        Some(path) => Ok(assembled(session.task, directory, path, session.connection)),
    }
}

/// A search of the path from the candidate at `place` on ends with the
/// first interpreter that the path has from there on, or without one.
pub proof fn lemma_probing(session: SessionView, directory: Seq<char>, place: nat, host: Host)
    requires
        obliging(host),
        place < candidate_count(),
    ensures
        outcome(session.probe(directory, place).0, session.probe(directory, place).1, host)
            == resolved_in(session, directory, first_found(host, place)),
    decreases candidate_count() - place,
{
    let asked = session.probe(directory, place);
    let reply = host(asked.1);
    assert(fits(asked.1, reply));
    let next = asked.0.step(reply);
    assert(outcome(asked.0, asked.1, host) == outcome(next.0, next.1, host));
    match reply {
        Response::Path(Some(path)) => {},
        _ => {
            if place + 1 < candidate_count() {
                assert(next == asked.0.probe(directory, place + 1));
                lemma_probing(asked.0, directory, place + 1, host);
                assert(asked.0.probe(directory, place + 1) == session.probe(directory, place + 1));
            } else {
                assert(first_found(host, place + 1) is None);
            }
        },
    }
}

/// Once the directory is known, the project's toolchain decides if it has
/// an interpreter, and the search path if not.
pub proof fn lemma_asking(session: SessionView, directory: Seq<char>, host: Host)
    requires
        obliging(host),
    ensures
        outcome(session.ask_toolchain(directory).0, session.ask_toolchain(directory).1, host)
            == resolved_in(session, directory, interpreter(host)),
{
    let asked = session.ask_toolchain(directory);
    let reply = host(asked.1);
    assert(fits(asked.1, reply));
    let next = asked.0.step(reply);
    assert(outcome(asked.0, asked.1, host) == outcome(next.0, next.1, host));
    match reply {
        Response::Path(Some(path)) => {},
        _ => {
            lemma_probing(asked.0, directory, 0, host);
            assert(asked.0.probe(directory, 0) == session.probe(directory, 0));
        },
    }
}

/// From the search for the directory on, a request ends without an
/// adapter where no directory is found, and else as the interpreter
/// decides.
pub proof fn lemma_locating(session: SessionView, host: Host)
    requires
        obliging(host),
    ensures
        outcome(session.locate().0, session.locate().1, host) == match located(
            session.user_installed_path,
            session.adapters_root,
            host,
        ) {
            None => Err(AdapterError::NotInstalled),
            Some(directory) => resolved_in(session, directory, interpreter(host)),
        },
{
    match session.user_installed_path {
        Some(path) => {
            lemma_asking(session, path, host);
        },
        None => {
            let asked = session.locate();
            let reply = host(asked.1);
            assert(fits(asked.1, reply));
            let next = asked.0.step(reply);
            assert(outcome(asked.0, asked.1, host) == outcome(next.0, next.1, host));
            match located(session.user_installed_path, session.adapters_root, host) {
                Some(directory) => {
                    lemma_asking(asked.0, directory, host);
                    assert(asked.0.ask_toolchain(directory) == session.ask_toolchain(directory));
                },
                None => {},
            }
        },
    }
}

/// From the search for what is installed on, a request comes to what
/// `resolved` states.
pub proof fn lemma_installed(session: SessionView, host: Host)
    requires
        obliging(host),
        session.connection == negotiated(session.task.tcp_connection),
    ensures
        outcome(session.get_installed_binary().0, session.get_installed_binary().1, host)
            == resolved(session.task, session.user_installed_path, session.adapters_root, host),
{
    if session.port_is_given() {
        lemma_locating(session, host);
    } else {
        let asked = session.get_installed_binary();
        let reply = host(asked.1);
        assert(fits(asked.1, reply));
        let next = asked.0.step(reply);
        assert(outcome(asked.0, asked.1, host) == outcome(next.0, next.1, host));
        let port = reply->Port_0;
        let chosen = SessionView {
            connection: with_chosen_port(session.connection, port),
            ..asked.0
        };
        assert(next == chosen.locate());
        lemma_locating(chosen, host);
    }
}

/// Whether a session at `stage` is still at its release check.
pub open spec fn checking(stage: StageView) -> bool {
    stage is FetchingVersion || stage is Downloading || stage is ListingRelease
        || stage is ListingWrapper || stage is Flattening
}

/// However the release check goes, the request comes to what `resolved`
/// states: no failure of the check reaches the caller.
pub proof fn lemma_check_is_passed(session: SessionView, request: RequestView, host: Host)
    requires
        obliging(host),
        checking(session.stage),
        pending(session.stage, request),
        session.connection == negotiated(session.task.tcp_connection),
    ensures
        outcome(session, request, host) == resolved(
            session.task,
            session.user_installed_path,
            session.adapters_root,
            host,
        ),
    decreases steps_left(session.stage),
{
    let reply = host(request);
    assert(fits(request, reply));
    let next = session.step(reply);
    assert(outcome(session, request, host) == outcome(next.0, next.1, host));
    lemma_step_goes_forward(session, reply);
    if checking(next.0.stage) {
        lemma_check_is_passed(next.0, next.1, host);
    } else {
        let noted = SessionView { check_failure: next.0.check_failure, ..session };
        assert(next == noted.get_installed_binary());
        lemma_installed(noted, host);
    }
}

/// A request for the adapter comes to what `resolved` states, whether or
/// not it begins with the release check.
pub proof fn lemma_outcome_of_request(
    claimed: bool,
    task: DebugTaskDefinition,
    user_installed_path: Option<Seq<char>>,
    adapters_root: Seq<char>,
    host: Host,
)
    requires
        obliging(host),
    ensures
        outcome(
            begin(claimed, task, user_installed_path, adapters_root).0,
            begin(claimed, task, user_installed_path, adapters_root).1,
            host,
        ) == resolved(task, user_installed_path, adapters_root, host),
{
    let begun = begin(claimed, task, user_installed_path, adapters_root);
    if claimed {
        lemma_check_is_passed(begun.0, begun.1, host);
    } else {
        let session = SessionView {
            task,
            user_installed_path,
            adapters_root,
            connection: negotiated(task.tcp_connection),
            check_failure: None,
            stage: StageView::Finished,
        };
        lemma_installed(session, host);
    }
}

/// The release check changes nothing in what a request comes to: a
/// failure of the check is noted, and never handed to the caller.
pub proof fn lemma_check_is_swallowed(
    task: DebugTaskDefinition,
    user_installed_path: Option<Seq<char>>,
    adapters_root: Seq<char>,
    host: Host,
)
    requires
        obliging(host),
    ensures
        outcome(
            begin(true, task, user_installed_path, adapters_root).0,
            begin(true, task, user_installed_path, adapters_root).1,
            host,
        ) == outcome(
            begin(false, task, user_installed_path, adapters_root).0,
            begin(false, task, user_installed_path, adapters_root).1,
            host,
        ),
{
    lemma_outcome_of_request(true, task, user_installed_path, adapters_root, host);
    lemma_outcome_of_request(false, task, user_installed_path, adapters_root, host);
}

/// A request for the adapter succeeds exactly where a directory of the
/// adapter and an interpreter are found. Where it fails, it fails for the
/// want of the one or the other: a host whose answers fit is never told of
/// a `ConfigurationError`.
pub proof fn lemma_success_is_owed(
    claimed: bool,
    task: DebugTaskDefinition,
    user_installed_path: Option<Seq<char>>,
    adapters_root: Seq<char>,
    host: Host,
)
    requires
        obliging(host),
    ensures
        ({
            let begun = begin(claimed, task, user_installed_path, adapters_root);
            let directory = located(user_installed_path, adapters_root, host);
            &&& outcome(begun.0, begun.1, host) is Ok <==> directory is Some && interpreter(host)
                is Some
            &&& outcome(begun.0, begun.1, host) == Err::<BinaryView, AdapterError>(
                AdapterError::NotInstalled,
            ) <==> directory is None
            &&& outcome(begun.0, begun.1, host) == Err::<BinaryView, AdapterError>(
                AdapterError::InterpreterNotFound,
            ) <==> directory is Some && interpreter(host) is None
        }),
{
    lemma_outcome_of_request(claimed, task, user_installed_path, adapters_root, host);
}

/// Whatever the host answers, a session never ends with an error of the
/// release check: `NetworkError` and `ExtractionError` stay inside.
pub proof fn lemma_check_errors_stay_inside(session: SessionView, request: RequestView, host: Host)
    requires
        pending(session.stage, request),
        !(session.stage is Finished),
    ensures
        outcome(session, request, host) != Err::<BinaryView, AdapterError>(
            AdapterError::NetworkError,
        ),
        outcome(session, request, host) != Err::<BinaryView, AdapterError>(
            AdapterError::ExtractionError,
        ),
    decreases steps_left(session.stage),
{
    let next = session.step(host(request));
    lemma_step_goes_forward(session, host(request));
    assert(outcome(session, request, host) == outcome(next.0, next.1, host));
    if !(next.0.stage is Finished) {
        lemma_check_errors_stay_inside(next.0, next.1, host);
    }
}

/// Whether the host finds no installed release below the adapter's
/// directory: it cannot list the directory, or none of the names begins as
/// the name of an installed release does.
pub open spec fn nothing_installed(adapters_root: Seq<char>, host: Host) -> bool {
    forall|names: Vec<String>, i: int|
        host(RequestView::ListDirectory { directory: adapter_directory_of(adapters_root) })
            == Response::Entries(names) && 0 <= i < names@.len() ==> !install_prefix().is_prefix_of(
            #[trigger] names@[i]@,
        )
}

/// Where the caller gives no path and the host finds no installed release,
/// the request fails with `NotInstalled`.
pub proof fn lemma_not_installed(
    claimed: bool,
    task: DebugTaskDefinition,
    adapters_root: Seq<char>,
    host: Host,
)
    requires
        obliging(host),
        nothing_installed(adapters_root, host),
    ensures
        outcome(
            begin(claimed, task, None, adapters_root).0,
            begin(claimed, task, None, adapters_root).1,
            host,
        ) == Err::<BinaryView, AdapterError>(AdapterError::NotInstalled),
{
    lemma_outcome_of_request(claimed, task, None, adapters_root, host);
    let directory = adapter_directory_of(adapters_root);
    match host(RequestView::ListDirectory { directory }) {
        Response::Entries(names) => {
            lemma_first_match(texts(names@), install_prefix());
            match first_match(texts(names@), install_prefix()) {
                Some(place) => {
                    assert(texts(names@)[place] == names@[place]@);
                },
                None => {},
            }
        },
        _ => {},
    }
}

/// Whether the host has an interpreter under the candidate name at
/// `place`.
pub open spec fn has_candidate(host: Host, place: nat) -> bool {
    host(RequestView::Which { name: candidate_name(place) }) matches Response::Path(Some(_))
}

/// Whether the project has a toolchain for the language.
pub open spec fn has_toolchain(host: Host) -> bool {
    host(RequestView::ActiveToolchain { language: language_name() }) matches Response::Path(
        Some(_),
    )
}

/// The search path has no interpreter from `place` on exactly where it has
/// none under any candidate name from there on.
pub proof fn lemma_first_found(host: Host, place: nat)
    ensures
        first_found(host, place) is None <==> forall|later: nat|
            place <= later < candidate_count() ==> !#[trigger] has_candidate(host, later),
        has_candidate(host, place) && place < candidate_count() ==> first_found(host, place)
            == Some(host(RequestView::Which { name: candidate_name(place) })->Path_0->0@),
        !has_candidate(host, place) && place < candidate_count() ==> first_found(host, place)
            == first_found(host, place + 1),
    decreases candidate_count() - place,
{
    if place < candidate_count() {
        lemma_first_found(host, place + 1);
        if has_candidate(host, place) {
            assert(first_found(host, place) is Some);
        } else {
            assert(first_found(host, place) == first_found(host, place + 1));
            if first_found(host, place + 1) is None {
                assert forall|later: nat|
                    place <= later < candidate_count() implies !#[trigger] has_candidate(
                    host,
                    later,
                ) by {
                    if later > place {
                        assert(place + 1 <= later);
                    }
                }
            } else {
                let later = choose|later: nat|
                    place + 1 <= later < candidate_count() && #[trigger] has_candidate(host, later);
                assert(place <= later < candidate_count() && has_candidate(host, later));
            }
        }
    }
}

/// Where a directory of the adapter is found, but the project has no
/// toolchain and the search path no interpreter under any candidate name,
/// the request fails with `InterpreterNotFound`.
pub proof fn lemma_interpreter_not_found(
    claimed: bool,
    task: DebugTaskDefinition,
    user_installed_path: Option<Seq<char>>,
    adapters_root: Seq<char>,
    host: Host,
)
    requires
        obliging(host),
        located(user_installed_path, adapters_root, host) is Some,
        !has_toolchain(host),
        forall|place: nat| place < candidate_count() ==> !#[trigger] has_candidate(host, place),
    ensures
        outcome(
            begin(claimed, task, user_installed_path, adapters_root).0,
            begin(claimed, task, user_installed_path, adapters_root).1,
            host,
        ) == Err::<BinaryView, AdapterError>(AdapterError::InterpreterNotFound),
{
    lemma_outcome_of_request(claimed, task, user_installed_path, adapters_root, host);
    lemma_first_found(host, 0);
}

/// Where the project has a toolchain, its interpreter is the command,
/// whatever the search path has under the candidate names.
pub proof fn lemma_toolchain_comes_first(
    claimed: bool,
    task: DebugTaskDefinition,
    user_installed_path: Option<Seq<char>>,
    adapters_root: Seq<char>,
    host: Host,
    registered: String,
)
    requires
        obliging(host),
        located(user_installed_path, adapters_root, host) is Some,
        host(RequestView::ActiveToolchain { language: language_name() }) == Response::Path(
            Some(registered),
        ),
    ensures
        outcome(
            begin(claimed, task, user_installed_path, adapters_root).0,
            begin(claimed, task, user_installed_path, adapters_root).1,
            host,
        ) matches Ok(binary) && binary.command == registered@,
{
    lemma_outcome_of_request(claimed, task, user_installed_path, adapters_root, host);
}

/// Where the project has no toolchain, the command is the interpreter
/// that the search path has under the first candidate name under which it
/// has one: `python3` before `python` before `py`.
pub proof fn lemma_first_candidate_wins(
    claimed: bool,
    task: DebugTaskDefinition,
    user_installed_path: Option<Seq<char>>,
    adapters_root: Seq<char>,
    host: Host,
    place: nat,
    found: String,
)
    requires
        obliging(host),
        located(user_installed_path, adapters_root, host) is Some,
        !has_toolchain(host),
        place < candidate_count(),
        host(RequestView::Which { name: candidate_name(place) }) == Response::Path(Some(found)),
        forall|earlier: nat| earlier < place ==> !#[trigger] has_candidate(host, earlier),
    ensures
        outcome(
            begin(claimed, task, user_installed_path, adapters_root).0,
            begin(claimed, task, user_installed_path, adapters_root).1,
            host,
        ) matches Ok(binary) && binary.command == found@,
{
    lemma_outcome_of_request(claimed, task, user_installed_path, adapters_root, host);
    lemma_first_found(host, 0);
    lemma_first_found(host, 1);
    lemma_first_found(host, 2);
    assert(has_candidate(host, place));
    if place >= 1 {
        assert(!has_candidate(host, 0));
    }
    if place >= 2 {
        assert(!has_candidate(host, 1));
    }
}

/// The search for an interpreter stops at the first that is found: the
/// next request is to finish.
pub proof fn lemma_search_stops_at_success(session: SessionView, path: String)
    requires
        session.stage is AskingToolchain || session.stage is Probing,
    ensures
        session.step(Response::Path(Some(path))).1 matches RequestView::Finish {
            outcome: Ok(binary),
        } && binary.command == path@,
{
}

/// Whether the host is asked to fetch, to download or to move.
pub open spec fn installs(request: RequestView) -> bool {
    request is FetchLatestVersion || request is Download || request is MoveEntries
}

/// No response leads a session to ask for the newest release: only its
/// first request can be that.
pub proof fn lemma_fetch_is_first(session: SessionView, reply: Response)
    ensures
        !(session.step(reply).1 is FetchLatestVersion),
{
}

/// A session that is past its release check stays past it, and asks for
/// nothing that installs.
pub proof fn lemma_no_install_after_check(session: SessionView, reply: Response)
    requires
        !checking(session.stage),
    ensures
        !checking(session.step(reply).0.stage),
        !installs(session.step(reply).1),
{
}

/// What a session notes of its release check. A failure is noted where
/// the host reports one during the check, and where the newest release is
/// no zip archive; nothing else changes the note.
pub proof fn lemma_check_failure_is_noted(session: SessionView, reply: Response)
    ensures
        checking(session.stage) && reply is Failed ==> session.step(reply).0.check_failure == Some(
            reply->Failed_0,
        ),
        session.stage is FetchingVersion && reply is Version && reply->Version_0.kind
            != ArtifactKind::Zip ==> session.step(reply).0.check_failure == Some(
            AdapterError::ExtractionError,
        ),
        !(checking(session.stage) && reply is Failed) && !(session.stage is FetchingVersion
            && reply is Version && reply->Version_0.kind != ArtifactKind::Zip) ==> session.step(
            reply,
        ).0.check_failure == session.check_failure,
{
}

/// A request that claimed the release check begins with it. One that did
/// not begins past it, and so installs nothing.
pub proof fn lemma_claim_decides_check(
    claimed: bool,
    task: DebugTaskDefinition,
    user_installed_path: Option<Seq<char>>,
    adapters_root: Seq<char>,
)
    ensures
        claimed <==> begin(claimed, task, user_installed_path, adapters_root).1
            is FetchLatestVersion,
        claimed <==> checking(begin(claimed, task, user_installed_path, adapters_root).0.stage),
        !claimed ==> !installs(begin(claimed, task, user_installed_path, adapters_root).1),
{
}

/// What the caller hands over with one request for the adapter: the task,
/// the path to an installed adapter if there is one, and the root below
/// which adapters are installed.
pub type Asking = (DebugTaskDefinition, Option<Seq<char>>, Seq<char>);

/// How many of the requests `askings`, begun one after another on an
/// adapter whose flag reads `checked`, begin with the release check.
pub open spec fn checks_begun(checked: bool, askings: Seq<Asking>) -> nat
    decreases askings.len(),
{
    if askings.len() == 0 {
        0
    } else {
        let claimed = claim(checked);
        let first = askings.first();
        let begun = begin(claimed.1, first.0, first.1, first.2);
        (if begun.1 is FetchLatestVersion {
            1nat
        } else {
            0nat
        }) + checks_begun(claimed.0, askings.drop_first())
    }
}

/// Of the requests that are begun one after another on a new adapter, the
/// first begins with the release check and no other does, however many
/// they are and whatever they ask for.
pub proof fn lemma_one_request_checks(askings: Seq<Asking>)
    ensures
        checks_begun(false, askings) == (if askings.len() == 0 {
            0nat
        } else {
            1nat
        }),
        checks_begun(true, askings) == 0,
    decreases askings.len(),
{
    if askings.len() > 0 {
        lemma_one_request_checks(askings.drop_first());
    }
}

/// Whether `path` names an entry of `directory`: the directory's path,
/// then a name of its own.
pub open spec fn lies_in(path: Seq<char>, directory: Seq<char>, name: Seq<char>) -> bool {
    path == joined(directory, name)
}

/// A release that was unpacked with a wrapper is brought into shape: the
/// wrapper is the first entry whose name begins as a wrapper's does; its
/// entries are asked for; and each of them is moved, in their order, from
/// the wrapper to the directory of the release under the name it had.
/// Then the wrapper is removed.
pub proof fn lemma_wrapper_is_emptied(
    session: SessionView,
    names: Vec<String>,
    children: Vec<String>,
)
    requires
        session.stage is ListingRelease,
        first_match(texts(names@), wrapper_prefix()) is Some,
    ensures
        ({
            let directory = session.stage->ListingRelease_version_directory;
            let place = first_match(texts(names@), wrapper_prefix())->0;
            let wrapper = joined(directory, names@[place]@);
            let asked = session.step(Response::Entries(names));
            let moved = asked.0.step(Response::Entries(children));
            &&& 0 <= place < names@.len()
            &&& wrapper_prefix().is_prefix_of(names@[place]@)
            &&& asked.1 == (RequestView::ListDirectory { directory: wrapper })
            &&& moved.1 matches RequestView::MoveEntries { moves, remove }
            &&& remove == wrapper
            &&& moves == flattening(directory, wrapper, texts(children@))
            &&& moves.len() == children@.len()
            &&& forall|i: int|
                0 <= i < children@.len() ==> lies_in(
                    (#[trigger] moves[i]).from,
                    wrapper,
                    children@[i]@,
                ) && lies_in(moves[i].to, directory, children@[i]@)
        }),
{
    lemma_first_match(texts(names@), wrapper_prefix());
}

/// A release that was unpacked without a wrapper is left as it is: no
/// move is asked for, and the session is past its release check.
pub proof fn lemma_release_without_wrapper_is_left(session: SessionView, names: Vec<String>)
    requires
        session.stage is ListingRelease,
        forall|i: int|
            0 <= i < names@.len() ==> !wrapper_prefix().is_prefix_of(#[trigger] names@[i]@),
    ensures
        !installs(session.step(Response::Entries(names)).1),
        !checking(session.step(Response::Entries(names)).0.stage),
{
    lemma_first_match(texts(names@), wrapper_prefix());
    match first_match(texts(names@), wrapper_prefix()) {
        Some(place) => {
            assert(texts(names@)[place] == names@[place]@);
        },
        None => {},
    }
}

} // verus!
