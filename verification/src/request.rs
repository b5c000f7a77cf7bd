//! The arguments that the adapter is given when a session starts.
//!
//! They form a JSON object. A member is written only where the task says
//! something about it: the adapter reads a missing member differently from
//! an empty or a false one.

use vstd::prelude::*;
use crate::adapter::PythonDebugAdapter;
use crate::json::{
    json_array, json_bool, json_number, json_object, json_of, json_text, members_of, object_insert,
    object_new, Json, Members,
};
use crate::task::{DebugRequest, DebugTaskDefinition, LaunchRequest, RequestKind};

verus! {

/// What a session is started with: the configuration for the adapter and
/// the mode of the session.
#[derive(Debug)]
pub struct RequestArguments {
    pub configuration: serde_json::Value,
    pub request: RequestKind,
}

/// The JSON array of the strings `items`.
pub open spec fn text_array(items: Seq<String>) -> Json {
    Json::Array(items.map_values(|item: String| Json::Text(item@)))
}

/// The JSON members that stand for the variables `env`: one for each name,
/// with the value that comes last for it.
pub open spec fn environment_members(env: Seq<(String, String)>) -> Members
    decreases env.len(),
{
    if env.len() == 0 {
        Members::empty()
    } else {
        environment_members(env.drop_last()).insert(env.last().0@, Json::Text(env.last().1@))
    }
}

/// The members that every session has: its mode, and the two switches that
/// make the adapter follow child processes and pass on their output.
pub open spec fn common_members(kind: RequestKind) -> Members {
    Members::empty().insert("request"@, Json::Text(kind.word())).insert(
        "subProcess"@,
        Json::Bool(true),
    ).insert("redirectOutput"@, Json::Bool(true))
}

/// `members` with `value` under `name` if there is a value, else unchanged.
pub open spec fn with_optional(members: Members, name: Seq<char>, value: Option<Json>) -> Members {
    match value {
        Some(value) => members.insert(name, value),
        None => members,
    }
}

/// The environment as a member's value, if there is any variable.
pub open spec fn environment_value(env: Seq<(String, String)>) -> Option<Json> {
    if env.len() > 0 {
        Some(Json::Object(environment_members(env)))
    } else {
        None
    }
}

/// The stop-on-entry switch as a member's value, if it was set.
pub open spec fn stop_on_entry_value(stop_on_entry: Option<bool>) -> Option<Json> {
    match stop_on_entry {
        Some(flag) => Some(Json::Bool(flag)),
        None => None,
    }
}

/// The working directory as a member's value, if one was given.
pub open spec fn working_directory_value(cwd: Option<String>) -> Option<Json> {
    match cwd {
        Some(directory) => Some(Json::Text(directory@)),
        None => None,
    }
}

/// The members of a launch: program and arguments always; environment,
/// stop-on-entry switch and working directory where the task has them.
pub open spec fn launch_members(launch: LaunchRequest, stop_on_entry: Option<bool>) -> Members {
    let always = common_members(RequestKind::Launch).insert(
        "program"@,
        Json::Text(launch.program@),
    ).insert("args"@, text_array(launch.args@));
    let with_env = with_optional(always, "env"@, environment_value(launch.env@));
    let with_stop = with_optional(with_env, "stopOnEntry"@, stop_on_entry_value(stop_on_entry));
    with_optional(with_stop, "cwd"@, working_directory_value(launch.cwd))
}

/// The members of the configuration that `task` leads to.
pub open spec fn request_members(task: DebugTaskDefinition) -> Members {
    match task.request {
        DebugRequest::Attach(attach) => common_members(RequestKind::Attach).insert(
            "processId"@,
            Json::Number(attach.process_id as int),
        ),
        DebugRequest::Launch(launch) => launch_members(launch, task.stop_on_entry),
    }
}

/// Whether `name` is one of the members that every launch has.
pub open spec fn is_launch_name(name: Seq<char>) -> bool {
    name == "request"@ || name == "subProcess"@ || name == "redirectOutput"@ || name == "program"@
        || name == "args"@
}

/// Whether `name` is one of the members that every attach has.
pub open spec fn is_attach_name(name: Seq<char>) -> bool {
    name == "request"@ || name == "subProcess"@ || name == "redirectOutput"@ || name
        == "processId"@
}

/// No two members of a configuration share a name.
pub proof fn lemma_member_names_differ()
    ensures
        "request"@ != "subProcess"@,
        "request"@ != "redirectOutput"@,
        "request"@ != "processId"@,
        "request"@ != "program"@,
        "request"@ != "args"@,
        "request"@ != "env"@,
        "request"@ != "stopOnEntry"@,
        "request"@ != "cwd"@,
        "subProcess"@ != "redirectOutput"@,
        "subProcess"@ != "processId"@,
        "subProcess"@ != "program"@,
        "subProcess"@ != "args"@,
        "subProcess"@ != "env"@,
        "subProcess"@ != "stopOnEntry"@,
        "subProcess"@ != "cwd"@,
        "redirectOutput"@ != "processId"@,
        "redirectOutput"@ != "program"@,
        "redirectOutput"@ != "args"@,
        "redirectOutput"@ != "env"@,
        "redirectOutput"@ != "stopOnEntry"@,
        "redirectOutput"@ != "cwd"@,
        "processId"@ != "program"@,
        "processId"@ != "args"@,
        "processId"@ != "env"@,
        "processId"@ != "stopOnEntry"@,
        "processId"@ != "cwd"@,
        "program"@ != "args"@,
        "program"@ != "env"@,
        "program"@ != "stopOnEntry"@,
        "program"@ != "cwd"@,
        "args"@ != "env"@,
        "args"@ != "stopOnEntry"@,
        "args"@ != "cwd"@,
        "env"@ != "stopOnEntry"@,
        "env"@ != "cwd"@,
        "stopOnEntry"@ != "cwd"@,
{
    reveal_strlit("request");
    reveal_strlit("subProcess");
    reveal_strlit("redirectOutput");
    reveal_strlit("processId");
    reveal_strlit("program");
    reveal_strlit("args");
    reveal_strlit("env");
    reveal_strlit("stopOnEntry");
    reveal_strlit("cwd");
    assert("request"@.len() == 7 && "program"@.len() == 7 && "args"@.len() == 4);
    assert("subProcess"@.len() == 10 && "redirectOutput"@.len() == 14);
    assert("processId"@.len() == 9 && "stopOnEntry"@.len() == 11);
    assert("env"@.len() == 3 && "cwd"@.len() == 3);
    assert("request"@[0] != "program"@[0]);
    assert("env"@[0] != "cwd"@[0]);
}

/// The two modes are named by different words.
pub proof fn lemma_mode_words_differ()
    ensures
        RequestKind::Launch.word() != RequestKind::Attach.word(),
{
    reveal_strlit("launch");
    reveal_strlit("attach");
    assert("launch"@[0] != "attach"@[0]);
}

/// An attach is configured by four members and no other: the mode, which
/// reads `attach`, the two switches, both on, and the process to attach to.
/// It has neither a program nor arguments.
pub proof fn lemma_attach_members(task: DebugTaskDefinition)
    requires
        task.request is Attach,
    ensures
        forall|name: Seq<char>|
            request_members(task).contains_key(name) <==> is_attach_name(name),
        request_members(task)["request"@] == Json::Text("attach"@),
        request_members(task)["subProcess"@] == Json::Bool(true),
        request_members(task)["redirectOutput"@] == Json::Bool(true),
        request_members(task)["processId"@] == Json::Number(
            task.request->Attach_0.process_id as int,
        ),
        !request_members(task).contains_key("program"@),
        !request_members(task).contains_key("args"@),
{
    lemma_member_names_differ();
}

/// A launch always has the mode, which reads `launch`, the two switches,
/// both on, the program and its arguments. It has an environment exactly
/// when the task names a variable, a stop-on-entry switch exactly when the
/// task sets one, with the value that the task gives it, and a working
/// directory exactly when the task has one. It has no other member.
pub proof fn lemma_launch_members(task: DebugTaskDefinition)
    requires
        task.request is Launch,
    ensures
        forall|name: Seq<char>|
            request_members(task).contains_key(name) <==> (is_launch_name(name) || (name == "env"@
                && task.request->Launch_0.env@.len() > 0) || (name == "stopOnEntry"@
                && task.stop_on_entry is Some) || (name == "cwd"@ && task.request->Launch_0.cwd
                is Some)),
        request_members(task)["request"@] == Json::Text("launch"@),
        request_members(task)["subProcess"@] == Json::Bool(true),
        request_members(task)["redirectOutput"@] == Json::Bool(true),
        request_members(task)["program"@] == Json::Text(task.request->Launch_0.program@),
        request_members(task)["args"@] == text_array(task.request->Launch_0.args@),
        task.request->Launch_0.env@.len() > 0 ==> request_members(task)["env"@] == Json::Object(
            environment_members(task.request->Launch_0.env@),
        ),
        task.stop_on_entry matches Some(flag) ==> request_members(task)["stopOnEntry"@]
            == Json::Bool(flag),
        task.request->Launch_0.cwd matches Some(directory) ==> request_members(task)["cwd"@]
            == Json::Text(directory@),
        !request_members(task).contains_key("processId"@),
{
    lemma_member_names_differ();
}

/// A launch without variables and without a stop-on-entry switch has
/// neither an `env` nor a `stopOnEntry` member.
pub proof fn lemma_launch_omits_what_is_unset(task: DebugTaskDefinition)
    requires
        task.request is Launch,
        task.request->Launch_0.env@.len() == 0,
        task.stop_on_entry is None,
    ensures
        !request_members(task).contains_key("env"@),
        !request_members(task).contains_key("stopOnEntry"@),
{
    lemma_launch_members(task);
    lemma_member_names_differ();
}

/// A launch with a variable and with the stop-on-entry switch set has both
/// members, and the switch reads as the task set it: a switch set to off
/// is written as `false`, not left out.
pub proof fn lemma_launch_writes_what_is_set(task: DebugTaskDefinition, flag: bool)
    requires
        task.request is Launch,
        task.request->Launch_0.env@.len() > 0,
        task.stop_on_entry == Some(flag),
    ensures
        request_members(task).contains_key("env"@),
        request_members(task).contains_key("stopOnEntry"@),
        request_members(task)["stopOnEntry"@] == Json::Bool(flag),
{
    lemma_launch_members(task);
}

/// A variable that is named last in the environment is a member of the
/// environment's object, with its value.
pub proof fn lemma_last_variable_counts(env: Seq<(String, String)>)
    requires
        env.len() > 0,
    ensures
        environment_members(env).contains_key(env.last().0@),
        environment_members(env)[env.last().0@] == Json::Text(env.last().1@),
{
}

/// The members of an environment are the names of its variables.
pub proof fn lemma_environment_names(env: Seq<(String, String)>, name: Seq<char>)
    ensures
        environment_members(env).contains_key(name) <==> exists|i: int|
            0 <= i < env.len() && #[trigger] env[i].0@ == name,
    decreases env.len(),
{
    if env.len() > 0 {
        lemma_environment_names(env.drop_last(), name);
        if environment_members(env).contains_key(name) {
            if name == env.last().0@ {
                assert(env[env.len() - 1].0@ == name);
            } else {
                let i = choose|i: int|
                    0 <= i < env.drop_last().len() && #[trigger] env.drop_last()[i].0@ == name;
                assert(env[i].0@ == name);
            }
        }
        if exists|i: int| 0 <= i < env.len() && #[trigger] env[i].0@ == name {
            let i = choose|i: int| 0 <= i < env.len() && #[trigger] env[i].0@ == name;
            if i < env.len() - 1 {
                assert(env.drop_last()[i].0@ == name);
            }
        }
    }
}

fn text_values(items: &Vec<String>) -> (value: serde_json::Value)
    ensures
        json_of(value) == text_array(items@),
{
    let mut values: Vec<serde_json::Value> = Vec::new();
    let mut i: usize = 0;
    while i < items.len()
        invariant
            i <= items.len(),
            values@.len() == i,
            forall|j: int| 0 <= j < i ==> json_of(#[trigger] values@[j]) == Json::Text(items@[j]@),
        decreases items.len() - i,
    {
        values.push(json_text(items[i].as_str()));
        i += 1;
    }
    let ghost held = values@;
    let value = json_array(values);
    assert(held.map_values(|item: serde_json::Value| json_of(item)) =~= items@.map_values(
        |item: String| Json::Text(item@),
    ));
    value
}

fn environment_object(env: &Vec<(String, String)>) -> (value: serde_json::Value)
    ensures
        json_of(value) == Json::Object(environment_members(env@)),
{
    let mut object = object_new();
    let mut i: usize = 0;
    while i < env.len()
        invariant
            i <= env.len(),
            members_of(object) == environment_members(env@.take(i as int)),
        decreases env.len() - i,
    {
        let variable = &env[i];
        object_insert(&mut object, variable.0.clone(), json_text(variable.1.as_str()));
        assert(env@.take(i + 1).drop_last() == env@.take(i as int));
        i += 1;
    }
    assert(env@.take(env.len() as int) == env@);
    json_object(object)
}

impl RequestArguments {
    /// Builds the arguments for the session that `task` describes.
    ///
    /// Every configuration names the mode and switches on the following of
    /// child processes and the passing on of output. An attach adds the
    /// process to attach to. A launch adds the program and its arguments,
    /// and the environment, the stop-on-entry switch and the working
    /// directory only where `task` has them.
    pub fn build(task: &DebugTaskDefinition) -> (arguments: RequestArguments)
        ensures
            json_of(arguments.configuration) == Json::Object(request_members(*task)),
            arguments.request == task.request.kind_of(),
    {
        let kind = task.request.kind();
        let mut object = object_new();
        object_insert(&mut object, "request".to_owned(), json_text(kind.as_str()));
        object_insert(&mut object, "subProcess".to_owned(), json_bool(true));
        object_insert(&mut object, "redirectOutput".to_owned(), json_bool(true));
        match &task.request {
            DebugRequest::Attach(attach) => {
                object_insert(&mut object, "processId".to_owned(), json_number(attach.process_id));
            },
            DebugRequest::Launch(launch) => {
                let program = json_text(launch.program.as_str());
                object_insert(&mut object, "program".to_owned(), program);
                object_insert(&mut object, "args".to_owned(), text_values(&launch.args));
                if launch.env.len() > 0 {
                    object_insert(&mut object, "env".to_owned(), environment_object(&launch.env));
                }
                if let Some(stop_on_entry) = task.stop_on_entry {
                    object_insert(&mut object, "stopOnEntry".to_owned(), json_bool(stop_on_entry));
                }
                if let Some(cwd) = &launch.cwd {
                    object_insert(&mut object, "cwd".to_owned(), json_text(cwd.as_str()));
                }
            },
        }
        RequestArguments { configuration: json_object(object), request: kind }
    }
}

impl PythonDebugAdapter {
    /// The arguments for the session that `config` describes.
    pub fn request_args(&self, config: &DebugTaskDefinition) -> (arguments: RequestArguments)
        ensures
            json_of(arguments.configuration) == Json::Object(request_members(*config)),
            arguments.request == config.request.kind_of(),
    {
        RequestArguments::build(config)
    }
}

} // verus!
