use vstd::prelude::*;

use crate::error::{failure_message, FailureView};
use crate::invoke::{finished, prepared, CommandView, OutputView};
use crate::json::{json_parsed, json_text, lossy_text};
use crate::locate::{resolved_location, RunnerProbe, DEFAULT_RUNNER_BINARY};

verus! {

/// When the runner is found, the payload encodes, and the runner exits with
/// status 0 printing valid JSON, the call yields exactly the decoded value.
pub proof fn lemma_success_yields_decoded_value(
    probe: RunnerProbe,
    binary_override: Option<Seq<char>>,
    tool: Seq<char>,
    payload: serde_json::Value,
    out: OutputView,
    v: serde_json::Value,
)
    requires
        resolved_location(probe) is Some,
        json_text(payload) is Ok,
        out.success,
        json_parsed(lossy_text(out.stdout)) == Ok::<serde_json::Value, Seq<char>>(v),
    ensures
        prepared(probe, binary_override, tool, payload) is Ok,
        finished(Ok(out)) == Ok::<serde_json::Value, FailureView>(v),
{
}

/// When neither candidate exists, the call fails with a lookup failure before
/// any command to spawn exists, whatever the tool, payload or override.
pub proof fn lemma_missing_runner_spawns_nothing(
    probe: RunnerProbe,
    binary_override: Option<Seq<char>>,
    tool: Seq<char>,
    payload: serde_json::Value,
)
    requires
        !probe.development_exists,
        probe.bundled_exists != Some(true),
    ensures
        prepared(probe, binary_override, tool, payload) == Err::<CommandView, FailureView>(
            FailureView::PathResolution,
        ),
{
}

/// A failure exit is an execution failure whose message ends with the
/// runner's standard error text, unaltered.
pub proof fn lemma_failure_exit_reports_stderr(out: OutputView)
    requires
        !out.success,
    ensures
        finished(Ok(out)) == Err::<serde_json::Value, FailureView>(
            FailureView::Execution(lossy_text(out.stderr)),
        ),
        ({
            let m = failure_message(FailureView::Execution(lossy_text(out.stderr)));
            let s = lossy_text(out.stderr);
            m.len() >= s.len() && m.subrange(m.len() - s.len(), m.len() as int) == s
        }),
{
    let s = lossy_text(out.stderr);
    let m = failure_message(FailureView::Execution(s));
    assert(m.subrange(m.len() - s.len(), m.len() as int) =~= s);
}

/// Output that is not valid JSON after a status-0 exit is a decode failure,
/// never an execution failure.
pub proof fn lemma_bad_output_is_decode_failure(out: OutputView)
    requires
        out.success,
        json_parsed(lossy_text(out.stdout)) is Err,
    ensures
        finished(Ok(out)) matches Err(FailureView::Decode(_)),
        !(finished(Ok(out)) matches Err(FailureView::Execution(_))),
{
}

/// The override alone decides the executable: with an override set, it is
/// the one spawned; without, the default is; the other arguments stay the same.
pub proof fn lemma_override_selects_binary(
    probe: RunnerProbe,
    binary: Seq<char>,
    tool: Seq<char>,
    payload: serde_json::Value,
)
    requires
        resolved_location(probe) is Some,
        json_text(payload) is Ok,
    ensures
        ({
            let with = prepared(probe, Some(binary), tool, payload);
            let without = prepared(probe, None, tool, payload);
            &&& with is Ok
            &&& without is Ok
            &&& with->Ok_0.program == binary
            &&& without->Ok_0.program == DEFAULT_RUNNER_BINARY@
            &&& with->Ok_0.script == without->Ok_0.script
            &&& with->Ok_0.tool == without->Ok_0.tool
            &&& with->Ok_0.payload_json == without->Ok_0.payload_json
            &&& binary != DEFAULT_RUNNER_BINARY@ ==> with->Ok_0.program
                != without->Ok_0.program
        }),
{
}

} // verus!
