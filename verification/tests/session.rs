use debugpy_adapter::{
    AdapterError, AdapterVersion, ArtifactKind, AttachRequest, ConnectionParameters,
    DebugAdapterBinary, DebugRequest, DebugTaskDefinition, HostAddress, LaunchRequest, Move,
    PythonDebugAdapter, Request, RequestKind, Response, Session, PartialConnectionSpec,
};
use serde_json::Value;

const LOOPBACK: HostAddress = HostAddress { a: 127, b: 0, c: 0, d: 1 };

fn strings(list: &[&str]) -> Vec<String> {
    list.iter().map(|name| name.to_string()).collect()
}

fn attach(port: Option<u16>) -> DebugTaskDefinition {
    DebugTaskDefinition {
        request: DebugRequest::Attach(AttachRequest { process_id: 4242 }),
        stop_on_entry: None,
        tcp_connection: Some(PartialConnectionSpec { host: None, port, timeout: None }),
    }
}

fn release(kind: ArtifactKind) -> AdapterVersion {
    AdapterVersion {
        tag_name: "v1.8.1".to_string(),
        url: "https://api.github.com/repos/microsoft/debugpy/zipball/v1.8.1".to_string(),
        kind,
    }
}

fn checked_adapter() -> PythonDebugAdapter {
    let mut adapter = PythonDebugAdapter::new();
    adapter.claim_check();
    adapter
}

/// A session that waits for the project's toolchain, with the adapter
/// found in `/adapters/Debugpy/Debugpy_v1.8.1`.
fn at_toolchain(port: Option<u16>) -> Session {
    let mut adapter = checked_adapter();
    let (session, request) = adapter.get_binary(attach(port), None, "/adapters".to_string());
    let (session, request) = match request {
        Request::ChoosePort { .. } => session.advance(Response::Port(None)),
        other => (session, other),
    };
    assert!(matches!(request, Request::ListDirectory { .. }));
    let (session, request) = session.advance(Response::Entries(strings(&["Debugpy_v1.8.1"])));
    assert!(matches!(request, Request::ActiveToolchain { .. }));
    session
}

fn finished(request: Request) -> Result<DebugAdapterBinary, AdapterError> {
    match request {
        Request::Finish { outcome } => outcome,
        other => panic!("the session goes on with {:?}", other),
    }
}

fn asked_name(request: &Request) -> &str {
    match request {
        Request::Which { name } => name,
        other => panic!("the session asks {:?}", other),
    }
}

#[test]
fn the_first_request_begins_with_the_release_check() {
    let mut adapter = PythonDebugAdapter::new();
    let (session, request) = adapter.get_binary(attach(Some(7000)), None, "/adapters".to_string());
    match request {
        Request::FetchLatestVersion { announcement, repo_owner, repo_name } => {
            assert_eq!(announcement, "Checking latest version of Debugpy...");
            assert_eq!(repo_owner, "microsoft");
            assert_eq!(repo_name, "debugpy");
        },
        other => panic!("the session begins with {:?}", other),
    }
    assert!(adapter.is_checked());
    assert!(!session.is_finished());
    assert_eq!(session.check_failure(), None);
}

#[test]
fn many_requests_on_one_adapter_fetch_once() {
    let mut adapter = PythonDebugAdapter::new();
    let mut fetches = 0;
    for _ in 0..8 {
        let (_, request) = adapter.get_binary(attach(Some(7000)), None, "/adapters".to_string());
        if matches!(request, Request::FetchLatestVersion { .. }) {
            fetches += 1;
        }
    }
    assert_eq!(fetches, 1);
}

#[test]
fn a_later_request_goes_straight_to_what_is_installed() {
    let mut adapter = checked_adapter();
    let (_, request) = adapter.get_binary(attach(Some(7000)), None, "/adapters".to_string());
    match request {
        Request::ListDirectory { directory } => assert_eq!(directory, "/adapters/Debugpy"),
        other => panic!("the session begins with {:?}", other),
    }
}

#[test]
fn a_release_with_a_wrapper_is_flattened() {
    let mut adapter = PythonDebugAdapter::new();
    let (session, _) = adapter.get_binary(attach(Some(7000)), None, "/adapters".to_string());
    let (session, request) = session.advance(Response::Version(release(ArtifactKind::Zip)));
    match request {
        Request::Download { url, kind, directory } => {
            assert_eq!(url, "https://api.github.com/repos/microsoft/debugpy/zipball/v1.8.1");
            assert_eq!(kind, ArtifactKind::Zip);
            assert_eq!(directory, "/adapters/Debugpy/Debugpy_v1.8.1");
        },
        other => panic!("the session asks {:?}", other),
    }
    let (session, request) = session.advance(Response::Done);
    match request {
        Request::ListDirectory { directory } => {
            assert_eq!(directory, "/adapters/Debugpy/Debugpy_v1.8.1")
        },
        other => panic!("the session asks {:?}", other),
    }
    let (session, request) =
        session.advance(Response::Entries(strings(&["microsoft-debugpy-1a2b3c4"])));
    match request {
        Request::ListDirectory { directory } => {
            assert_eq!(directory, "/adapters/Debugpy/Debugpy_v1.8.1/microsoft-debugpy-1a2b3c4")
        },
        other => panic!("the session asks {:?}", other),
    }
    let (session, request) =
        session.advance(Response::Entries(strings(&["src", "README.md", "setup.py"])));
    match request {
        Request::MoveEntries { moves, remove } => {
            assert_eq!(remove, "/adapters/Debugpy/Debugpy_v1.8.1/microsoft-debugpy-1a2b3c4");
            assert_eq!(
                moves,
                vec![
                    Move {
                        from: "/adapters/Debugpy/Debugpy_v1.8.1/microsoft-debugpy-1a2b3c4/src"
                            .to_string(),
                        to: "/adapters/Debugpy/Debugpy_v1.8.1/src".to_string(),
                    },
                    Move {
                        from: "/adapters/Debugpy/Debugpy_v1.8.1/microsoft-debugpy-1a2b3c4/README.md"
                            .to_string(),
                        to: "/adapters/Debugpy/Debugpy_v1.8.1/README.md".to_string(),
                    },
                    Move {
                        from: "/adapters/Debugpy/Debugpy_v1.8.1/microsoft-debugpy-1a2b3c4/setup.py"
                            .to_string(),
                        to: "/adapters/Debugpy/Debugpy_v1.8.1/setup.py".to_string(),
                    },
                ]
            );
        },
        other => panic!("the session asks {:?}", other),
    }
    let (session, request) = session.advance(Response::Done);
    assert!(matches!(request, Request::ListDirectory { ref directory } if directory == "/adapters/Debugpy"));
    assert_eq!(session.check_failure(), None);
}

#[test]
fn a_release_without_a_wrapper_is_left_untouched() {
    let mut adapter = PythonDebugAdapter::new();
    let (session, _) = adapter.get_binary(attach(Some(7000)), None, "/adapters".to_string());
    let (session, _) = session.advance(Response::Version(release(ArtifactKind::Zip)));
    let (session, _) = session.advance(Response::Done);
    let (session, request) =
        session.advance(Response::Entries(strings(&["src", "README.md", "setup.py"])));
    assert!(matches!(request, Request::ListDirectory { ref directory } if directory == "/adapters/Debugpy"));
    assert_eq!(session.check_failure(), None);
}

#[test]
fn the_first_of_several_wrappers_is_taken() {
    let mut adapter = PythonDebugAdapter::new();
    let (session, _) = adapter.get_binary(attach(Some(7000)), None, "/a".to_string());
    let (session, _) = session.advance(Response::Version(release(ArtifactKind::Zip)));
    let (session, _) = session.advance(Response::Done);
    let (_, request) = session.advance(Response::Entries(strings(&[
        "notes.txt",
        "microsoft-debugpy-222",
        "microsoft-debugpy-111",
    ])));
    match request {
        Request::ListDirectory { directory } => {
            assert_eq!(directory, "/a/Debugpy/Debugpy_v1.8.1/microsoft-debugpy-222")
        },
        other => panic!("the session asks {:?}", other),
    }
}

#[test]
fn a_failed_fetch_is_noted_and_the_session_goes_on() {
    let mut adapter = PythonDebugAdapter::new();
    let (session, _) = adapter.get_binary(attach(Some(7000)), None, "/adapters".to_string());
    let (session, request) = session.advance(Response::Failed(AdapterError::NetworkError));
    assert!(matches!(request, Request::ListDirectory { ref directory } if directory == "/adapters/Debugpy"));
    assert_eq!(session.check_failure(), Some(AdapterError::NetworkError));
    assert!(!session.is_finished());
}

#[test]
fn a_failed_download_is_noted_and_the_session_goes_on() {
    let mut adapter = PythonDebugAdapter::new();
    let (session, _) = adapter.get_binary(attach(Some(7000)), None, "/adapters".to_string());
    let (session, _) = session.advance(Response::Version(release(ArtifactKind::Zip)));
    let (session, request) = session.advance(Response::Failed(AdapterError::ExtractionError));
    assert!(matches!(request, Request::ListDirectory { ref directory } if directory == "/adapters/Debugpy"));
    assert_eq!(session.check_failure(), Some(AdapterError::ExtractionError));
}

#[test]
fn a_failed_move_is_noted_and_the_session_goes_on() {
    let mut adapter = PythonDebugAdapter::new();
    let (session, _) = adapter.get_binary(attach(Some(7000)), None, "/adapters".to_string());
    let (session, _) = session.advance(Response::Version(release(ArtifactKind::Zip)));
    let (session, _) = session.advance(Response::Done);
    let (session, _) = session.advance(Response::Entries(strings(&["microsoft-debugpy-x"])));
    let (session, request) = session.advance(Response::Entries(strings(&["src"])));
    assert!(matches!(request, Request::MoveEntries { .. }));
    let (session, request) = session.advance(Response::Failed(AdapterError::ExtractionError));
    assert!(matches!(request, Request::ListDirectory { .. }));
    assert_eq!(session.check_failure(), Some(AdapterError::ExtractionError));
}

#[test]
fn a_release_that_is_no_zip_archive_is_not_downloaded() {
    for kind in [ArtifactKind::GzipTar, ArtifactKind::Vsix] {
        let mut adapter = PythonDebugAdapter::new();
        let (session, _) = adapter.get_binary(attach(Some(7000)), None, "/adapters".to_string());
        let (session, request) = session.advance(Response::Version(release(kind)));
        assert!(matches!(request, Request::ListDirectory { ref directory } if directory == "/adapters/Debugpy"));
        assert_eq!(session.check_failure(), Some(AdapterError::ExtractionError));
    }
}

#[test]
fn no_installed_directory_and_no_path_given_is_not_installed() {
    let mut adapter = checked_adapter();
    let (session, _) = adapter.get_binary(attach(Some(7000)), None, "/adapters".to_string());
    let (session, request) =
        session.advance(Response::Entries(strings(&["Codelldb_v1", "debugpy_v1", "Debugpy"])));
    assert!(matches!(finished(request), Err(AdapterError::NotInstalled)));
    assert!(session.is_finished());
}

#[test]
fn an_unreadable_adapter_directory_is_not_installed() {
    let mut adapter = checked_adapter();
    let (session, _) = adapter.get_binary(attach(Some(7000)), None, "/adapters".to_string());
    let (_, request) = session.advance(Response::Failed(AdapterError::NetworkError));
    assert!(matches!(finished(request), Err(AdapterError::NotInstalled)));
}

#[test]
fn not_installed_is_reported_after_a_failed_check_too() {
    let mut adapter = PythonDebugAdapter::new();
    let (session, _) = adapter.get_binary(attach(Some(7000)), None, "/adapters".to_string());
    let (session, _) = session.advance(Response::Failed(AdapterError::NetworkError));
    let (_, request) = session.advance(Response::Entries(Vec::new()));
    assert!(matches!(finished(request), Err(AdapterError::NotInstalled)));
}

#[test]
fn the_first_installed_directory_is_taken() {
    let mut adapter = checked_adapter();
    let (session, _) = adapter.get_binary(attach(Some(7000)), None, "/adapters".to_string());
    let (session, _) = session.advance(Response::Entries(strings(&[
        "tmp",
        "Debugpy_v1.8.1",
        "Debugpy_v1.6.0",
    ])));
    let (_, request) = session.advance(Response::Path(Some("/usr/bin/python3".to_string())));
    let binary = finished(request).unwrap();
    assert_eq!(binary.arguments[0], "/adapters/Debugpy/Debugpy_v1.8.1/src/debugpy/adapter");
}

#[test]
fn a_given_path_is_used_without_a_scan() {
    let mut adapter = checked_adapter();
    let (session, request) = adapter.get_binary(
        attach(Some(7000)),
        Some("/opt/my-debugpy".to_string()),
        "/adapters".to_string(),
    );
    match request {
        Request::ActiveToolchain { language } => assert_eq!(language, "Python"),
        other => panic!("the session asks {:?}", other),
    }
    let (_, request) = session.advance(Response::Path(Some("/usr/bin/python3".to_string())));
    let binary = finished(request).unwrap();
    assert_eq!(binary.arguments[0], "/opt/my-debugpy/src/debugpy/adapter");
}

#[test]
fn no_toolchain_and_no_candidate_is_interpreter_not_found() {
    let session = at_toolchain(Some(7000));
    let (session, request) = session.advance(Response::Path(None));
    assert_eq!(asked_name(&request), "python3");
    let (session, request) = session.advance(Response::Path(None));
    assert_eq!(asked_name(&request), "python");
    let (session, request) = session.advance(Response::Path(None));
    assert_eq!(asked_name(&request), "py");
    let (session, request) = session.advance(Response::Path(None));
    assert!(matches!(finished(request), Err(AdapterError::InterpreterNotFound)));
    assert!(session.is_finished());
}

#[test]
fn a_registered_toolchain_is_used_without_a_search() {
    let session = at_toolchain(Some(7000));
    let (session, request) =
        session.advance(Response::Path(Some("/project/.venv/bin/python".to_string())));
    let binary = finished(request).unwrap();
    assert_eq!(binary.command, "/project/.venv/bin/python");
    assert!(session.is_finished());
}

#[test]
fn the_first_candidate_that_is_found_wins() {
    let session = at_toolchain(Some(7000));
    let (session, request) = session.advance(Response::Path(None));
    assert_eq!(asked_name(&request), "python3");
    let (_, request) = session.advance(Response::Path(Some("/usr/bin/python3".to_string())));
    assert_eq!(finished(request).unwrap().command, "/usr/bin/python3");
}

#[test]
fn where_only_py_is_found_py_is_the_command() {
    let session = at_toolchain(Some(7000));
    let (session, _) = session.advance(Response::Path(None));
    let (session, _) = session.advance(Response::Path(None));
    let (session, request) = session.advance(Response::Path(None));
    assert_eq!(asked_name(&request), "py");
    let (_, request) = session.advance(Response::Path(Some("C:/Windows/py.exe".to_string())));
    assert_eq!(finished(request).unwrap().command, "C:/Windows/py.exe");
}

#[test]
fn the_adapter_is_assembled_in_full() {
    let mut adapter = checked_adapter();
    let task = DebugTaskDefinition {
        request: DebugRequest::Launch(LaunchRequest {
            program: "main.py".to_string(),
            args: strings(&["-v"]),
            env: vec![("A".to_string(), "1".to_string())],
            cwd: Some("/work".to_string()),
        }),
        stop_on_entry: Some(false),
        tcp_connection: Some(PartialConnectionSpec {
            host: Some(HostAddress { a: 192, b: 168, c: 0, d: 10 }),
            port: Some(9229),
            timeout: Some(5000),
        }),
    };
    let (session, _) = adapter.get_binary(task, None, "/adapters".to_string());
    let (session, _) = session.advance(Response::Entries(strings(&["Debugpy_v1.8.1"])));
    let (_, request) = session.advance(Response::Path(Some("/usr/bin/python3".to_string())));
    let binary = finished(request).unwrap();
    assert_eq!(binary.command, "/usr/bin/python3");
    assert_eq!(
        binary.arguments,
        strings(&[
            "/adapters/Debugpy/Debugpy_v1.8.1/src/debugpy/adapter",
            "--port=9229",
            "--host=192.168.0.10",
        ])
    );
    assert_eq!(
        binary.connection,
        Some(ConnectionParameters {
            host: HostAddress { a: 192, b: 168, c: 0, d: 10 },
            port: 9229,
            timeout: 5000,
        })
    );
    assert_eq!(binary.working_directory, None);
    assert!(binary.environment.is_empty());
    assert_eq!(binary.request_args.request, RequestKind::Launch);
    let configuration = &binary.request_args.configuration;
    assert_eq!(configuration.get("request"), Some(&Value::String("launch".to_string())));
    assert_eq!(configuration.get("program"), Some(&Value::String("main.py".to_string())));
    assert_eq!(configuration.get("stopOnEntry"), Some(&Value::Bool(false)));
    assert_eq!(configuration.get("cwd"), Some(&Value::String("/work".to_string())));
    assert_eq!(
        configuration.get("env").unwrap().get("A"),
        Some(&Value::String("1".to_string()))
    );
}

#[test]
fn a_task_without_a_port_asks_the_host_for_one() {
    let mut adapter = checked_adapter();
    let (session, request) = adapter.get_binary(attach(None), None, "/adapters".to_string());
    match request {
        Request::ChoosePort { host } => assert_eq!(host, LOOPBACK),
        other => panic!("the session asks {:?}", other),
    }
    let (session, _) = session.advance(Response::Port(Some(40123)));
    let (session, _) = session.advance(Response::Entries(strings(&["Debugpy_v1"])));
    let (_, request) = session.advance(Response::Path(Some("/usr/bin/python3".to_string())));
    let binary = finished(request).unwrap();
    assert_eq!(binary.arguments[1], "--port=40123");
    assert_eq!(binary.arguments[2], "--host=127.0.0.1");
    assert_eq!(
        binary.connection,
        Some(ConnectionParameters { host: LOOPBACK, port: 40123, timeout: 2000 })
    );
}

#[test]
fn a_task_without_any_connection_asks_the_host_for_a_port() {
    let mut adapter = checked_adapter();
    let task = DebugTaskDefinition {
        request: DebugRequest::Attach(AttachRequest { process_id: 1 }),
        stop_on_entry: None,
        tcp_connection: None,
    };
    let (_, request) = adapter.get_binary(task, None, "/adapters".to_string());
    assert!(matches!(request, Request::ChoosePort { host } if host == LOOPBACK));
}

#[test]
fn without_a_free_port_the_default_port_is_used() {
    let session = at_toolchain(None);
    let (_, request) = session.advance(Response::Path(Some("/usr/bin/python3".to_string())));
    let binary = finished(request).unwrap();
    assert_eq!(binary.arguments[1], "--port=5678");
    assert_eq!(binary.connection.unwrap().port, 5678);
}

#[test]
fn a_response_of_the_wrong_kind_ends_the_session() {
    let mut adapter = PythonDebugAdapter::new();
    let (session, _) = adapter.get_binary(attach(Some(7000)), None, "/adapters".to_string());
    let (session, request) = session.advance(Response::Done);
    assert!(matches!(finished(request), Err(AdapterError::ConfigurationError)));
    assert!(session.is_finished());

    let session = at_toolchain(Some(7000));
    let (_, request) = session.advance(Response::Entries(Vec::new()));
    assert!(matches!(finished(request), Err(AdapterError::ConfigurationError)));

    let session = at_toolchain(Some(7000));
    let (_, request) = session.advance(Response::Failed(AdapterError::NetworkError));
    assert!(matches!(finished(request), Err(AdapterError::ConfigurationError)));
}

#[test]
fn a_finished_session_takes_no_further_response() {
    let session = at_toolchain(Some(7000));
    let (session, request) = session.advance(Response::Path(Some("/usr/bin/python3".to_string())));
    assert!(finished(request).is_ok());
    let (session, request) = session.advance(Response::Path(Some("/usr/bin/python3".to_string())));
    assert!(matches!(finished(request), Err(AdapterError::ConfigurationError)));
    assert!(session.is_finished());
}

#[test]
fn every_session_ends_within_twelve_responses() {
    let replies = [
        Response::Version(release(ArtifactKind::Zip)),
        Response::Done,
        Response::Entries(strings(&["microsoft-debugpy-x"])),
        Response::Entries(strings(&["src"])),
        Response::Done,
        Response::Port(Some(5000)),
        Response::Entries(strings(&["Debugpy_v1.8.1"])),
        Response::Path(None),
        Response::Path(None),
        Response::Path(None),
        Response::Path(Some("/usr/bin/py".to_string())),
    ];
    let mut adapter = PythonDebugAdapter::new();
    let (mut session, mut request) = adapter.get_binary(attach(None), None, "/r".to_string());
    let mut taken = 0;
    for reply in replies {
        assert!(!matches!(request, Request::Finish { .. }));
        let next = session.advance(reply);
        session = next.0;
        request = next.1;
        taken += 1;
    }
    assert_eq!(taken, 11);
    let binary = finished(request).unwrap();
    assert_eq!(binary.command, "/usr/bin/py");
    assert_eq!(binary.arguments[0], "/r/Debugpy/Debugpy_v1.8.1/src/debugpy/adapter");
    assert_eq!(binary.arguments[1], "--port=5000");
}
