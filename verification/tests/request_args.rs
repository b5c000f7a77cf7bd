use debugpy_adapter::{
    AttachRequest, DebugRequest, DebugTaskDefinition, LaunchRequest, PythonDebugAdapter,
    RequestArguments, RequestKind,
};
use serde_json::Value;

fn launch(env: Vec<(String, String)>, stop_on_entry: Option<bool>, cwd: Option<String>) -> DebugTaskDefinition {
    DebugTaskDefinition {
        request: DebugRequest::Launch(LaunchRequest {
            program: "main.py".to_string(),
            args: vec!["--verbose".to_string(), "input.txt".to_string()],
            env,
            cwd,
        }),
        stop_on_entry,
        tcp_connection: None,
    }
}

fn attach(process_id: u32, stop_on_entry: Option<bool>) -> DebugTaskDefinition {
    DebugTaskDefinition {
        request: DebugRequest::Attach(AttachRequest { process_id }),
        stop_on_entry,
        tcp_connection: None,
    }
}

fn keys(configuration: &Value) -> Vec<String> {
    let mut names: Vec<String> = configuration.as_object().unwrap().keys().cloned().collect();
    names.sort();
    names
}

#[test]
fn launch_without_env_or_stop_on_entry_omits_both() {
    let arguments = RequestArguments::build(&launch(Vec::new(), None, None));
    let configuration = &arguments.configuration;
    assert!(configuration.get("env").is_none());
    assert!(configuration.get("stopOnEntry").is_none());
    assert!(configuration.get("cwd").is_none());
    assert_eq!(keys(configuration), ["args", "program", "redirectOutput", "request", "subProcess"]);
}

#[test]
fn launch_with_env_and_stop_on_entry_false_writes_both() {
    let env = vec![("PYTHONPATH".to_string(), "/src".to_string())];
    let arguments = RequestArguments::build(&launch(env, Some(false), None));
    let configuration = &arguments.configuration;
    assert_eq!(configuration.get("stopOnEntry"), Some(&Value::Bool(false)));
    let written = configuration.get("env").unwrap().as_object().unwrap();
    assert_eq!(written.len(), 1);
    assert_eq!(written.get("PYTHONPATH"), Some(&Value::String("/src".to_string())));
}

#[test]
fn launch_with_stop_on_entry_true_writes_true() {
    let arguments = RequestArguments::build(&launch(Vec::new(), Some(true), None));
    assert_eq!(arguments.configuration.get("stopOnEntry"), Some(&Value::Bool(true)));
    assert!(arguments.configuration.get("env").is_none());
}

#[test]
fn launch_names_mode_switches_program_and_arguments() {
    let arguments = RequestArguments::build(&launch(Vec::new(), None, None));
    let configuration = &arguments.configuration;
    assert_eq!(arguments.request, RequestKind::Launch);
    assert_eq!(configuration.get("request"), Some(&Value::String("launch".to_string())));
    assert_eq!(configuration.get("subProcess"), Some(&Value::Bool(true)));
    assert_eq!(configuration.get("redirectOutput"), Some(&Value::Bool(true)));
    assert_eq!(configuration.get("program"), Some(&Value::String("main.py".to_string())));
    assert_eq!(
        configuration.get("args"),
        Some(&Value::Array(vec![
            Value::String("--verbose".to_string()),
            Value::String("input.txt".to_string()),
        ]))
    );
    assert!(configuration.get("processId").is_none());
}

#[test]
fn launch_without_arguments_writes_an_empty_array() {
    let task = DebugTaskDefinition {
        request: DebugRequest::Launch(LaunchRequest {
            program: "app.py".to_string(),
            args: Vec::new(),
            env: Vec::new(),
            cwd: None,
        }),
        stop_on_entry: None,
        tcp_connection: None,
    };
    let arguments = RequestArguments::build(&task);
    assert_eq!(arguments.configuration.get("args"), Some(&Value::Array(Vec::new())));
}

#[test]
fn launch_with_working_directory_writes_it() {
    let arguments =
        RequestArguments::build(&launch(Vec::new(), None, Some("/home/user/project".to_string())));
    assert_eq!(
        arguments.configuration.get("cwd"),
        Some(&Value::String("/home/user/project".to_string()))
    );
}

#[test]
fn launch_with_everything_has_eight_members() {
    let env = vec![("A".to_string(), "1".to_string())];
    let arguments = RequestArguments::build(&launch(env, Some(true), Some("/w".to_string())));
    assert_eq!(
        keys(&arguments.configuration),
        ["args", "cwd", "env", "program", "redirectOutput", "request", "stopOnEntry", "subProcess"]
    );
}

#[test]
fn the_last_value_of_a_repeated_variable_counts() {
    let env = vec![
        ("MODE".to_string(), "first".to_string()),
        ("HOME".to_string(), "/root".to_string()),
        ("MODE".to_string(), "second".to_string()),
    ];
    let arguments = RequestArguments::build(&launch(env, None, None));
    let written = arguments.configuration.get("env").unwrap().as_object().unwrap();
    assert_eq!(written.len(), 2);
    assert_eq!(written.get("MODE"), Some(&Value::String("second".to_string())));
    assert_eq!(written.get("HOME"), Some(&Value::String("/root".to_string())));
}

#[test]
fn attach_names_the_process_and_no_program() {
    let arguments = RequestArguments::build(&attach(4242, None));
    let configuration = &arguments.configuration;
    assert_eq!(arguments.request, RequestKind::Attach);
    assert_eq!(configuration.get("request"), Some(&Value::String("attach".to_string())));
    assert_eq!(configuration.get("processId"), Some(&Value::from(4242u32)));
    assert_eq!(configuration.get("processId").unwrap().as_u64(), Some(4242));
    assert!(configuration.get("program").is_none());
    assert!(configuration.get("args").is_none());
    assert_eq!(configuration.get("subProcess"), Some(&Value::Bool(true)));
    assert_eq!(configuration.get("redirectOutput"), Some(&Value::Bool(true)));
    assert_eq!(keys(configuration), ["processId", "redirectOutput", "request", "subProcess"]);
}

#[test]
fn attach_does_not_read_the_stop_on_entry_switch() {
    let arguments = RequestArguments::build(&attach(1, Some(true)));
    assert!(arguments.configuration.get("stopOnEntry").is_none());
}

#[test]
fn attach_to_the_largest_process_id() {
    let arguments = RequestArguments::build(&attach(u32::MAX, None));
    assert_eq!(arguments.configuration.get("processId").unwrap().as_u64(), Some(4294967295));
}

#[test]
fn the_adapter_builds_the_same_arguments() {
    let adapter = PythonDebugAdapter::new();
    let task = launch(vec![("K".to_string(), "v".to_string())], Some(false), None);
    let by_adapter = adapter.request_args(&task);
    let direct = RequestArguments::build(&task);
    assert_eq!(by_adapter.configuration, direct.configuration);
    assert_eq!(by_adapter.request, direct.request);
}

#[test]
fn the_configuration_is_written_as_json_text() {
    let arguments = RequestArguments::build(&attach(7, None));
    assert_eq!(
        serde_json::to_string(&arguments.configuration).unwrap(),
        "{\"processId\":7,\"redirectOutput\":true,\"request\":\"attach\",\"subProcess\":true}"
    );
}

#[test]
fn mode_words() {
    assert_eq!(RequestKind::Launch.as_str(), "launch");
    assert_eq!(RequestKind::Attach.as_str(), "attach");
    assert_eq!(attach(1, None).request.kind(), RequestKind::Attach);
    assert_eq!(launch(Vec::new(), None, None).request.kind(), RequestKind::Launch);
}
