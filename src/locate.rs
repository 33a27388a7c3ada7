use vstd::prelude::*;

use crate::error::{FailureView, InvokeError};

verus! {

/// The runner's entry script as built locally, relative to the working directory.
pub const DEVELOPMENT_RUNNER_PATH: &'static str = "../packages/tool-runner/dist/cli.cjs";

/// The runner's entry script among the packaged application's resources.
pub const BUNDLED_RUNNER_RESOURCE: &'static str = "packages/tool-runner/dist/cli.cjs";

/// The executable that runs the entry script when no override is set.
pub const DEFAULT_RUNNER_BINARY: &'static str = "node";

/// The environment variable whose value overrides the runner executable.
pub const BINARY_OVERRIDE_VARIABLE: &'static str = "PRO_ASSIST_NODE";

/// Which of the two candidate locations of the entry script is used.
#[derive(Clone, Copy, Debug, PartialEq, Eq, Structural)]
pub enum RunnerLocation {
    /// [`DEVELOPMENT_RUNNER_PATH`].
    Development,
    /// [`BUNDLED_RUNNER_RESOURCE`], resolved inside the application's resources.
    Bundled,
}

/// What the filesystem showed of the two candidates at the start of one call.
#[derive(Clone, Copy, Debug)]
pub struct RunnerProbe {
    /// Whether the development path exists.
    pub development_exists: bool,
    /// Whether the bundled resource exists; `None` when the application could
    /// not resolve the resource's path at all.
    pub bundled_exists: Option<bool>,
}

/// The first candidate that exists, in the fixed order development, bundled.
pub open spec fn resolved_location(probe: RunnerProbe) -> Option<RunnerLocation> {
    if probe.development_exists {
        Some(RunnerLocation::Development)
    } else if probe.bundled_exists == Some(true) {
        Some(RunnerLocation::Bundled)
    } else {
        None
    }
}

/// The executable that runs the entry script: the override when one is set.
pub open spec fn runner_binary(binary_override: Option<Seq<char>>) -> Seq<char> {
    match binary_override {
        Some(b) => b,
        None => DEFAULT_RUNNER_BINARY@,
    }
}

/// The view of an optional text.
pub open spec fn text_option(o: Option<String>) -> Option<Seq<char>> {
    match o {
        Some(s) => Some(s@),
        None => None,
    }
}

/// Picks the entry script: the development path when it exists, else the
/// bundled resource when it exists; with neither, the lookup fails.
pub fn resolve_tool_runner(probe: &RunnerProbe) -> (r: Result<RunnerLocation, InvokeError>)
    ensures
        match resolved_location(*probe) {
            Some(l) => r == Ok::<RunnerLocation, InvokeError>(l),
            None => r matches Err(e) && e@ == FailureView::PathResolution,
        },
{
    if probe.development_exists {
        Ok(RunnerLocation::Development)
    } else if probe.bundled_exists == Some(true) {
        Ok(RunnerLocation::Bundled)
    } else {
        Err(InvokeError::PathResolution)
    }
}

/// The executable to spawn, given the value of the override variable (`None`
/// when it is unset or not valid text).
pub fn node_binary(binary_override: Option<String>) -> (r: String)
    ensures
        r@ == runner_binary(text_option(binary_override)),
{
    match binary_override {
        Some(b) => b,
        None => DEFAULT_RUNNER_BINARY.to_string(),
    }
}

} // verus!
