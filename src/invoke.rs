use vstd::prelude::*;

use crate::error::{FailureView, InvokeError};
use crate::json::{decode_json, encode_json, json_parsed, json_text, lossy_text, lossy_utf8};
use crate::locate::{
    node_binary, resolve_tool_runner, resolved_location, runner_binary, text_option,
    RunnerLocation, RunnerProbe,
};

verus! {

/// The process to start for one call: `program` runs with the entry script's
/// path, the tool's name and the payload's JSON text as its three arguments.
#[derive(Debug)]
pub struct RunnerCommand {
    pub program: String,
    pub script: RunnerLocation,
    pub tool: String,
    pub payload_json: String,
}

/// The mathematical value of a [`RunnerCommand`].
pub struct CommandView {
    pub program: Seq<char>,
    pub script: RunnerLocation,
    pub tool: Seq<char>,
    pub payload_json: Seq<char>,
}

impl View for RunnerCommand {
    type V = CommandView;

    open spec fn view(&self) -> CommandView {
        CommandView {
            program: self.program@,
            script: self.script,
            tool: self.tool@,
            payload_json: self.payload_json@,
        }
    }
}

/// What a finished runner process left: whether it exited with status 0, and
/// both of its output streams in full.
#[derive(Debug)]
pub struct RunnerOutput {
    pub success: bool,
    pub stdout: Vec<u8>,
    pub stderr: Vec<u8>,
}

/// The mathematical value of a [`RunnerOutput`].
pub struct OutputView {
    pub success: bool,
    pub stdout: Seq<u8>,
    pub stderr: Seq<u8>,
}

impl View for RunnerOutput {
    type V = OutputView;

    open spec fn view(&self) -> OutputView {
        OutputView { success: self.success, stdout: self.stdout@, stderr: self.stderr@ }
    }
}

/// The first two stages of a call: locate the runner, then encode the payload.
pub open spec fn prepared(
    probe: RunnerProbe,
    binary_override: Option<Seq<char>>,
    tool: Seq<char>,
    payload: serde_json::Value,
) -> Result<CommandView, FailureView> {
    match resolved_location(probe) {
        None => Err(FailureView::PathResolution),
        Some(script) => match json_text(payload) {
            Err(m) => Err(FailureView::Serialization(m)),
            Ok(payload_json) => Ok(
                CommandView {
                    program: runner_binary(binary_override),
                    script,
                    tool,
                    payload_json,
                },
            ),
        },
    }
}

/// The last stage of a call, given how the spawn went: its system error text,
/// or the finished process's output.
pub open spec fn finished(outcome: Result<OutputView, Seq<char>>) -> Result<
    serde_json::Value,
    FailureView,
> {
    match outcome {
        Err(os_error) => Err(FailureView::Spawn(os_error)),
        Ok(out) => if !out.success {
            Err(FailureView::Execution(lossy_text(out.stderr)))
        } else {
            match json_parsed(lossy_text(out.stdout)) {
                Ok(v) => Ok(v),
                Err(m) => Err(FailureView::Decode(m)),
            }
        },
    }
}

/// The view of a prepared command or its failure.
pub open spec fn command_result(r: Result<RunnerCommand, InvokeError>) -> Result<
    CommandView,
    FailureView,
> {
    match r {
        Ok(c) => Ok(c@),
        Err(e) => Err(e@),
    }
}

/// The view of a call's value or its failure.
pub open spec fn value_result(r: Result<serde_json::Value, InvokeError>) -> Result<
    serde_json::Value,
    FailureView,
> {
    match r {
        Ok(v) => Ok(v),
        Err(e) => Err(e@),
    }
}

/// The view of a finished process or of the system error that kept it from starting.
pub open spec fn output_result(r: Result<RunnerOutput, String>) -> Result<OutputView, Seq<char>> {
    match r {
        Ok(out) => Ok(out@),
        Err(m) => Err(m@),
    }
}

/// Locates the runner and encodes the payload. `binary_override` is the value
/// of the override variable, read once for this call. A failed lookup ends
/// the call before the payload is looked at and before anything is spawned.
pub fn prepare_invocation(
    probe: &RunnerProbe,
    binary_override: Option<String>,
    tool: String,
    payload: &serde_json::Value,
) -> (r: Result<RunnerCommand, InvokeError>)
    ensures
        command_result(r) == prepared(*probe, text_option(binary_override), tool@, *payload),
{
    let script = match resolve_tool_runner(probe) {
        Ok(l) => l,
        Err(e) => return Err(e),
    };
    let payload_json = match encode_json(payload) {
        Ok(t) => t,
        Err(m) => return Err(InvokeError::Serialization(m)),
    };
    let program = node_binary(binary_override);
    Ok(RunnerCommand { program, script, tool, payload_json })
}

/// Interprets how the runner process went: a spawn error, a failure exit
/// with its standard error, or standard output read as one JSON value.
pub fn finish_invocation(outcome: Result<RunnerOutput, String>) -> (r: Result<
    serde_json::Value,
    InvokeError,
>)
    ensures
        value_result(r) == finished(output_result(outcome)),
{
    match outcome {
        Err(os_error) => Err(InvokeError::Spawn(os_error)),
        Ok(out) => {
            if !out.success {
                let stderr = lossy_utf8(out.stderr.as_slice());
                return Err(InvokeError::Execution(stderr));
            }
            let stdout = lossy_utf8(out.stdout.as_slice());
            match decode_json(stdout.as_str()) {
                Ok(v) => Ok(v),
                Err(m) => Err(InvokeError::Decode(m)),
            }
        },
    }
}

impl RunnerCommand {
    /// The runner's arguments, in order: the entry script's path as the
    /// caller resolved it, the tool's name and the payload's JSON text.
    pub fn arguments(&self, script_path: String) -> (r: Vec<String>)
        ensures
            r@.len() == 3,
            r@[0]@ == script_path@,
            r@[1]@ == self.tool@,
            r@[2]@ == self.payload_json@,
    {
        let mut args: Vec<String> = Vec::new();
        args.push(script_path);
        args.push(self.tool.clone());
        args.push(self.payload_json.clone());
        args
    }
}

} // verus!
