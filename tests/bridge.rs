use proassist_bridge::{
    finish_invocation, node_binary, prepare_invocation, resolve_tool_runner, InvokeError,
    RunnerLocation, RunnerOutput, RunnerProbe, DEFAULT_RUNNER_BINARY, MISSING_RUNNER_MESSAGE,
};
use serde_json::Value;

fn json(text: &str) -> Value {
    serde_json::from_str(text).unwrap()
}

fn found() -> RunnerProbe {
    RunnerProbe { development_exists: true, bundled_exists: None }
}

fn missing() -> RunnerProbe {
    RunnerProbe { development_exists: false, bundled_exists: Some(false) }
}

fn exited(success: bool, stdout: &[u8], stderr: &[u8]) -> Result<RunnerOutput, String> {
    Ok(RunnerOutput { success, stdout: stdout.to_vec(), stderr: stderr.to_vec() })
}

#[test]
fn echo_payload_comes_back_unchanged() {
    let payload = json(r#"{"x":1}"#);
    let command =
        prepare_invocation(&found(), None, "echo".to_string(), &payload).unwrap();
    assert_eq!(command.program, "node");
    assert_eq!(command.script, RunnerLocation::Development);
    assert_eq!(command.tool, "echo");
    assert_eq!(command.payload_json, r#"{"x":1}"#);
    let result = finish_invocation(exited(true, br#"{"x":1}"#, b"")).unwrap();
    assert_eq!(result, payload);
}

#[test]
fn arguments_are_script_tool_and_payload() {
    let payload = json(r#"{"x":1}"#);
    let command =
        prepare_invocation(&found(), None, "echo".to_string(), &payload).unwrap();
    let args = command.arguments("/opt/runner/cli.cjs".to_string());
    assert_eq!(args, vec!["/opt/runner/cli.cjs", "echo", r#"{"x":1}"#]);
}

#[test]
fn missing_runner_asks_to_build_it() {
    let err = prepare_invocation(&missing(), None, "echo".to_string(), &json("1")).unwrap_err();
    assert!(matches!(err, InvokeError::PathResolution));
    let message = err.message();
    assert_eq!(message, MISSING_RUNNER_MESSAGE);
    assert!(message.contains("Build @pro-assist/tool-runner"));
}

#[test]
fn unresolvable_bundle_counts_as_missing() {
    let probe = RunnerProbe { development_exists: false, bundled_exists: None };
    assert!(matches!(resolve_tool_runner(&probe), Err(InvokeError::PathResolution)));
}

#[test]
fn development_path_comes_first() {
    let probe = RunnerProbe { development_exists: true, bundled_exists: Some(true) };
    assert_eq!(resolve_tool_runner(&probe).unwrap(), RunnerLocation::Development);
}

#[test]
fn bundled_resource_is_the_fallback() {
    let probe = RunnerProbe { development_exists: false, bundled_exists: Some(true) };
    assert_eq!(resolve_tool_runner(&probe).unwrap(), RunnerLocation::Bundled);
}

#[test]
fn failure_exit_reports_stderr() {
    let err = finish_invocation(exited(false, b"{}", b"bad tool")).unwrap_err();
    assert!(matches!(&err, InvokeError::Execution(s) if s == "bad tool"));
    let message = err.message();
    assert!(message.contains("bad tool"));
    assert_eq!(message, "Tool runner error: bad tool");
}

#[test]
fn invalid_stdout_is_a_decode_failure() {
    let err = finish_invocation(exited(true, b"not json", b"")).unwrap_err();
    assert!(matches!(err, InvokeError::Decode(_)));
    let message = err.message();
    assert!(!message.is_empty());
    assert!(!message.starts_with("Tool runner error"));
}

#[test]
fn empty_stdout_is_a_decode_failure() {
    let err = finish_invocation(exited(true, b"", b"")).unwrap_err();
    assert!(matches!(err, InvokeError::Decode(_)));
}

#[test]
fn spawn_failure_carries_system_text() {
    let err = finish_invocation(Err("No such file or directory (os error 2)".to_string()))
        .unwrap_err();
    assert!(matches!(err, InvokeError::Spawn(_)));
    assert_eq!(
        err.message(),
        "Failed to invoke tool runner: No such file or directory (os error 2)"
    );
}

#[test]
fn override_picks_the_executable() {
    let payload = json("[1,2]");
    let with = prepare_invocation(
        &found(),
        Some("/tmp/stub-runner".to_string()),
        "echo".to_string(),
        &payload,
    )
    .unwrap();
    let without = prepare_invocation(&found(), None, "echo".to_string(), &payload).unwrap();
    assert_eq!(with.program, "/tmp/stub-runner");
    assert_eq!(without.program, DEFAULT_RUNNER_BINARY);
    assert_eq!(with.tool, without.tool);
    assert_eq!(with.payload_json, without.payload_json);
}

#[test]
fn default_binary_is_node() {
    assert_eq!(node_binary(None), "node");
    assert_eq!(node_binary(Some("bun".to_string())), "bun");
}

#[test]
fn payload_is_encoded_compactly() {
    let payload = json(r#"{ "b": 2, "a": [true, null, "t"] }"#);
    let command =
        prepare_invocation(&found(), None, "sum".to_string(), &payload).unwrap();
    assert_eq!(command.payload_json, r#"{"a":[true,null,"t"],"b":2}"#);
}

#[test]
fn any_json_value_is_accepted() {
    assert_eq!(finish_invocation(exited(true, b"42", b"")).unwrap(), json("42"));
    assert_eq!(finish_invocation(exited(true, b" null\n", b"")).unwrap(), Value::Null);
    assert_eq!(
        finish_invocation(exited(true, br#"["a", {"k": false}]"#, b"")).unwrap(),
        json(r#"["a",{"k":false}]"#)
    );
}

#[test]
fn invalid_utf8_in_stdout_is_replaced() {
    let result = finish_invocation(exited(true, b"\"a\xffb\"", b"")).unwrap();
    assert_eq!(result, Value::String("a\u{FFFD}b".to_string()));
}

#[test]
fn invalid_utf8_in_stderr_is_replaced() {
    let err = finish_invocation(exited(false, b"", b"bad\xfe")).unwrap_err();
    assert_eq!(err.message(), "Tool runner error: bad\u{FFFD}");
}

#[test]
fn trailing_text_after_json_is_rejected() {
    let err = finish_invocation(exited(true, b"{} {}", b"")).unwrap_err();
    assert!(matches!(err, InvokeError::Decode(_)));
}

#[test]
fn serialization_message_is_passed_through() {
    let err = InvokeError::Serialization("key must be a string".to_string());
    assert_eq!(err.message(), "key must be a string");
}
