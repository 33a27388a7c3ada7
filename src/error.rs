use vstd::prelude::*;

verus! {

/// Message of a failed runner lookup; it tells the operator to build the runner first.
pub const MISSING_RUNNER_MESSAGE: &'static str =
    "Tool runner binary missing. Build @pro-assist/tool-runner before starting the app.";

/// Prefix of the message when the runner process could not be started.
pub const SPAWN_FAILURE_PREFIX: &'static str = "Failed to invoke tool runner: ";

/// Prefix of the message when the runner exited with a failure status.
pub const EXECUTION_FAILURE_PREFIX: &'static str = "Tool runner error: ";

/// Why one invocation failed. Each variant is a stage of the call.
#[derive(Debug)]
pub enum InvokeError {
    /// Neither candidate location of the runner's entry script exists.
    PathResolution,
    /// The payload could not be written as JSON text; holds the encoder's message.
    Serialization(String),
    /// The runner binary could not be started; holds the system's error text.
    Spawn(String),
    /// The runner exited with a failure status; holds its standard error as text.
    Execution(String),
    /// Standard output was not one JSON value; holds the parser's message.
    Decode(String),
}

/// The mathematical value of an [`InvokeError`].
pub enum FailureView {
    PathResolution,
    Serialization(Seq<char>),
    Spawn(Seq<char>),
    Execution(Seq<char>),
    Decode(Seq<char>),
}

impl View for InvokeError {
    type V = FailureView;

    open spec fn view(&self) -> FailureView {
        match self {
            InvokeError::PathResolution => FailureView::PathResolution,
            InvokeError::Serialization(m) => FailureView::Serialization(m@),
            InvokeError::Spawn(m) => FailureView::Spawn(m@),
            InvokeError::Execution(m) => FailureView::Execution(m@),
            InvokeError::Decode(m) => FailureView::Decode(m@),
        }
    }
}

/// The single human-readable message that reports a failure to the caller.
pub open spec fn failure_message(f: FailureView) -> Seq<char> {
    match f {
        FailureView::PathResolution => MISSING_RUNNER_MESSAGE@,
        FailureView::Serialization(m) => m,
        FailureView::Spawn(m) => SPAWN_FAILURE_PREFIX@ + m,
        FailureView::Execution(m) => EXECUTION_FAILURE_PREFIX@ + m,
        FailureView::Decode(m) => m,
    }
}

impl InvokeError {
    /// The message handed back to the caller of an invocation.
    pub fn message(&self) -> (r: String)
        ensures
            r@ == failure_message(self@),
    {
        match self {
            InvokeError::PathResolution => MISSING_RUNNER_MESSAGE.to_string(),
            InvokeError::Serialization(m) => m.clone(),
            InvokeError::Spawn(m) => SPAWN_FAILURE_PREFIX.to_string().concat(m.as_str()),
            InvokeError::Execution(m) => EXECUTION_FAILURE_PREFIX.to_string().concat(m.as_str()),
            InvokeError::Decode(m) => m.clone(),
        }
    }
}

} // verus!
