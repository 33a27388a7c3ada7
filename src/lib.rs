//! A bridge that runs named tools in an out-of-process runner: it picks the
//! runner's entry script, encodes the request, and turns what the runner
//! printed into a JSON value or a failure message.
//!
//! The filesystem probes, the environment read and the process spawn are left
//! to the caller; everything decided between them lives here.

pub mod error;
pub mod invoke;
pub mod json;
pub mod laws;
pub mod locate;

pub use error::{FailureView, InvokeError, MISSING_RUNNER_MESSAGE};
pub use invoke::{finish_invocation, prepare_invocation, RunnerCommand, RunnerOutput};
pub use locate::{
    node_binary, resolve_tool_runner, RunnerLocation, RunnerProbe, BINARY_OVERRIDE_VARIABLE,
    BUNDLED_RUNNER_RESOURCE, DEFAULT_RUNNER_BINARY, DEVELOPMENT_RUNNER_PATH,
};
