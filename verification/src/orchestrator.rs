//! The scan orchestrator: one configuration, one status, at most one scan at a
//! time.
//!
//! The orchestrator decides and records; it starts nothing itself.
//! [`Orchestrator::launch_scan`] hands the caller the invocation to perform,
//! and [`Orchestrator::complete`] takes what became of it. Both take the
//! orchestrator by exclusive reference, so testing the status and setting it
//! are one step that no second launch can come between. A caller that shares
//! the orchestrator between threads keeps it behind one lock.
//!
//! A launched scan cannot be cancelled or timed out: the status stays
//! `Running` until the caller reports the outcome.

use crate::arguments::{invocation_of, Invocation, InvocationView};
use crate::config::{
    first_missing, missing_message, tool_label, unset_compliance, RequiredPath,
    ScanConfiguration, ScanConfigurationView, Tool,
};
use crate::status::{RunStatus, RunStatusView, ScanResult, ScanResultView};
use crate::text::{decode_lossy, lossy_text};
use vstd::prelude::*;
use vstd::utf8::{decode_utf8, valid_utf8};

verus! {

/// Why a launch was refused.
#[derive(Clone, Copy, Debug, PartialEq, Eq, Structural)]
pub enum OrchestratorError {
    /// A required path of the stored configuration is missing.
    NotConfigured,
    /// A scan is under way; no second one is started.
    AlreadyRunning,
}

/// What became of an invocation that the caller performed.
#[derive(Debug, PartialEq, Eq)]
pub enum ProcessOutcome {
    /// The process ran and exited; `code` is its exit code, if it had one.
    Exited { code: Option<i32>, stdout: Vec<u8>, stderr: Vec<u8> },
    /// The process could not be started; `reason` is the system's description.
    SpawnFailed { reason: String },
}

/// A [`ProcessOutcome`] as plain sequences.
pub enum ProcessOutcomeView {
    Exited { code: Option<i32>, stdout: Seq<u8>, stderr: Seq<u8> },
    SpawnFailed { reason: Seq<char> },
}

impl View for ProcessOutcome {
    type V = ProcessOutcomeView;

    open spec fn view(&self) -> ProcessOutcomeView {
        match self {
            ProcessOutcome::Exited { code, stdout, stderr } => ProcessOutcomeView::Exited {
                code: *code,
                stdout: stdout@,
                stderr: stderr@,
            },
            ProcessOutcome::SpawnFailed { reason } => ProcessOutcomeView::SpawnFailed {
                reason: reason@,
            },
        }
    }
}

/// The stored configuration, the shared status, and the tool of the latest
/// launch.
pub struct Orchestrator {
    config: ScanConfiguration,
    status: RunStatus,
    launched: Tool,
}

/// The orchestrator's state as plain values.
pub struct OrchestratorView {
    pub config: ScanConfigurationView,
    pub status: RunStatusView,
    /// The tool of the latest launch that started a scan; the compliance tool
    /// as long as there has been none.
    pub launched: Tool,
}

impl View for Orchestrator {
    type V = OrchestratorView;

    closed spec fn view(&self) -> OrchestratorView {
        OrchestratorView { config: self.config@, status: self.status@, launched: self.launched }
    }
}

/// The text that reports that `tool` could not be started.
pub open spec fn spawn_failure_text(tool: Tool, reason: Seq<char>) -> Seq<char> {
    "Ошибка при запуске "@ + tool_label(tool) + ": "@ + reason
}

/// The result that stands for a process outcome. An exit code plays no part:
/// the tools use it to tell what they found, not that they failed.
pub open spec fn result_of(tool: Tool, outcome: ProcessOutcomeView) -> ScanResultView {
    match outcome {
        ProcessOutcomeView::Exited { code, stdout, stderr } => ScanResultView::Output {
            stdout: lossy_text(stdout),
            stderr: lossy_text(stderr),
        },
        ProcessOutcomeView::SpawnFailed { reason } => ScanResultView::Failure {
            failure_reason: spawn_failure_text(tool, reason),
        },
    }
}

/// Where a stream of an exited process is well-formed UTF-8, `result` shows
/// exactly its decoding.
pub open spec fn shows_well_formed_output(
    outcome: ProcessOutcomeView,
    result: ScanResultView,
) -> bool {
    outcome matches ProcessOutcomeView::Exited { stdout: out, stderr: err, .. } ==> {
        &&& result matches ScanResultView::Output { stdout, stderr }
        &&& valid_utf8(out) ==> stdout == decode_utf8(out)
        &&& valid_utf8(err) ==> stderr == decode_utf8(err)
    }
}

/// What a launch answers in state `o`.
pub open spec fn launch_answer(o: OrchestratorView) -> Result<InvocationView, OrchestratorError> {
    if o.status is Running {
        Err(OrchestratorError::AlreadyRunning)
    } else {
        match invocation_of(o.config) {
            Ok(inv) => Ok(inv),
            Err(_) => Err(OrchestratorError::NotConfigured),
        }
    }
}

/// The state that a launch in state `o` leaves behind.
pub open spec fn after_launch(o: OrchestratorView) -> OrchestratorView {
    if o.status is Running {
        o
    } else {
        match invocation_of(o.config) {
            Ok(inv) => OrchestratorView {
                config: o.config,
                status: RunStatusView::Running,
                launched: inv.tool,
            },
            Err(which) => OrchestratorView {
                config: o.config,
                status: RunStatusView::Completed(
                    ScanResultView::Failure { failure_reason: missing_message(which) },
                ),
                launched: o.launched,
            },
        }
    }
}

/// The state after `result` has been recorded in state `o`.
pub open spec fn after_record(o: OrchestratorView, result: ScanResultView) -> OrchestratorView {
    OrchestratorView {
        config: o.config,
        status: RunStatusView::Completed(result),
        launched: o.launched,
    }
}

/// The state after the launched tool has come to `outcome` in state `o`.
pub open spec fn after_completion(
    o: OrchestratorView,
    outcome: ProcessOutcomeView,
) -> OrchestratorView {
    after_record(o, result_of(o.launched, outcome))
}

/// The result that reports that `tool` could not be started.
pub fn spawn_failure(tool: Tool, reason: &str) -> (result: ScanResult)
    ensures
        result@ == (ScanResultView::Failure { failure_reason: spawn_failure_text(tool, reason@) }),
{
    let mut text = String::from_str("Ошибка при запуске ");
    text.append(tool.label());
    text.append(": ");
    text.append(reason);
    ScanResult::Failure { failure_reason: text }
}

/// The result that shows what a tool wrote, from both streams already decoded.
pub fn captured(stdout: String, stderr: String) -> (result: ScanResult)
    ensures
        result@ == (ScanResultView::Output { stdout: stdout@, stderr: stderr@ }),
{
    ScanResult::Output { stdout, stderr }
}

/// The result that stands for `outcome` of a start of `tool`: the decoded
/// streams whatever the exit code, or the report of the failed start.
pub fn scan_result(tool: Tool, outcome: &ProcessOutcome) -> (result: ScanResult)
    ensures
        result@ == result_of(tool, outcome@),
        shows_well_formed_output(outcome@, result@),
{
    match outcome {
        ProcessOutcome::Exited { code: _, stdout, stderr } => {
            let out = decode_lossy(stdout.as_slice());
            let err = decode_lossy(stderr.as_slice());
            captured(out, err)
        },
        ProcessOutcome::SpawnFailed { reason } => spawn_failure(tool, reason.as_str()),
    }
}

impl Orchestrator {
    /// An orchestrator that has launched nothing yet, holding the default
    /// compliance configuration.
    pub fn new() -> (o: Self)
        ensures
            o@ == (OrchestratorView {
                config: unset_compliance(),
                status: RunStatusView::Idle,
                launched: Tool::Compliance,
            }),
    {
        Orchestrator {
            config: ScanConfiguration::compliance(),
            status: RunStatus::Idle,
            launched: Tool::Compliance,
        }
    }

    /// Replaces the stored configuration. Nothing is validated, and the status
    /// and a scan that is under way are left alone: the new configuration
    /// counts from the next launch on.
    pub fn configure(&mut self, cfg: ScanConfiguration)
        ensures
            final(self)@ == (OrchestratorView {
                config: cfg@,
                status: old(self)@.status,
                launched: old(self)@.launched,
            }),
    {
        self.config = cfg;
    }

    /// A copy of the stored configuration.
    pub fn configuration(&self) -> (cfg: ScanConfiguration)
        ensures
            cfg@ == self@.config,
    {
        self.config.clone()
    }

    /// A copy of the current status.
    pub fn current_status(&self) -> (status: RunStatus)
        ensures
            status@ == self@.status,
    {
        self.status.clone()
    }

    /// Whether a scan is under way.
    pub fn is_running(&self) -> (running: bool)
        ensures
            running == (self@.status is Running),
    {
        self.status.is_running()
    }

    /// Decides a launch request.
    ///
    /// While a scan is under way the request is refused and nothing changes.
    /// Otherwise, if a required path is missing, the status becomes
    /// `Completed` with the message that names it, and the request is refused.
    /// Otherwise the status becomes `Running` and the caller receives the
    /// invocation to perform; it reports the outcome with
    /// [`Orchestrator::complete`].
    pub fn launch_scan(&mut self) -> (answer: Result<Invocation, OrchestratorError>)
        ensures
            final(self)@ == after_launch(old(self)@),
            match answer {
                Ok(inv) => launch_answer(old(self)@) == Ok::<InvocationView, OrchestratorError>(
                    inv@,
                ),
                Err(e) => launch_answer(old(self)@) == Err::<InvocationView, OrchestratorError>(e),
            },
    {
        if self.status.is_running() {
            return Err(OrchestratorError::AlreadyRunning);
        }
        match self.config.invocation() {
            Ok(inv) => {
                self.status = RunStatus::Running;
                self.launched = inv.tool;
                Ok(inv)
            },
            Err(which) => {
                self.status = RunStatus::Completed(
                    ScanResult::Failure { failure_reason: which.message() },
                );
                Err(OrchestratorError::NotConfigured)
            },
        }
    }

    /// Records `result` as the outcome of the latest launch.
    pub fn record(&mut self, result: ScanResult)
        ensures
            final(self)@ == after_record(old(self)@, result@),
    {
        self.status = RunStatus::Completed(result);
    }

    /// Takes what became of the invocation that the latest launch handed out
    /// and records it: the status becomes `Completed` with the tool's decoded
    /// output, whatever its exit code, or with the report of the failed start.
    pub fn complete(&mut self, outcome: ProcessOutcome)
        ensures
            final(self)@ == after_completion(old(self)@, outcome@),
            final(self)@.status matches RunStatusView::Completed(result)
                && shows_well_formed_output(outcome@, result),
    {
        let result = scan_result(self.launched, &outcome);
        self.record(result);
    }
}

/// A launch that starts a scan leaves the status `Running`, and from then on,
/// until the outcome is reported, every further launch request is refused,
/// hands out no invocation and changes nothing.
pub proof fn lemma_one_scan_at_a_time(o: OrchestratorView)
    requires
        launch_answer(o) is Ok,
    ensures
        after_launch(o).status is Running,
        launch_answer(after_launch(o)) == Err::<InvocationView, OrchestratorError>(
            OrchestratorError::AlreadyRunning,
        ),
        after_launch(after_launch(o)) == after_launch(o),
{
}

/// A launch request that arrives while a scan is under way hands out no
/// invocation and leaves the state as it is, so the scan under way ends with
/// the very result it would have had without the request.
pub proof fn lemma_launch_while_running_is_inert(o: OrchestratorView, outcome: ProcessOutcomeView)
    requires
        o.status is Running,
    ensures
        launch_answer(o) == Err::<InvocationView, OrchestratorError>(
            OrchestratorError::AlreadyRunning,
        ),
        after_launch(o) == o,
        after_completion(after_launch(o), outcome) == after_completion(o, outcome),
{
}

/// With no scan under way, a launch on a configuration that lacks a required
/// path hands out no invocation and goes straight to `Completed`, carrying the
/// message that names the first missing path; that message is not empty.
pub proof fn lemma_missing_path_completes_at_once(o: OrchestratorView)
    requires
        !(o.status is Running),
        first_missing(o.config) is Some,
    ensures
        launch_answer(o) == Err::<InvocationView, OrchestratorError>(
            OrchestratorError::NotConfigured,
        ),
        after_launch(o).status == RunStatusView::Completed(
            ScanResultView::Failure {
                failure_reason: missing_message(first_missing(o.config)->Some_0),
            },
        ),
        missing_message(first_missing(o.config)->Some_0).len() > 0,
        after_launch(o).config == o.config,
{
    reveal_strlit("Не выбран XML-файл для сканирования.");
    reveal_strlit("Не выбран файл правил YARA.");
    reveal_strlit("Не выбран путь для сканирования.");
}

/// With no scan under way, a launch is refused exactly when a required path is
/// missing; otherwise it hands out the invocation of the stored configuration.
pub proof fn lemma_launch_succeeds_when_configured(o: OrchestratorView)
    requires
        !(o.status is Running),
    ensures
        launch_answer(o) is Ok <==> first_missing(o.config) is None,
        launch_answer(o) is Ok ==> invocation_of(o.config) == Ok::<InvocationView, RequiredPath>(
            launch_answer(o)->Ok_0,
        ),
{
}

/// Whatever the exit code of the tool, the status becomes `Completed` with the
/// decoded text of both streams: a non-zero code is an outcome like any other.
pub proof fn lemma_exit_code_is_no_error(
    o: OrchestratorView,
    code: Option<i32>,
    stdout: Seq<u8>,
    stderr: Seq<u8>,
)
    ensures
        after_completion(o, ProcessOutcomeView::Exited { code, stdout, stderr }).status
            == RunStatusView::Completed(
            ScanResultView::Output { stdout: lossy_text(stdout), stderr: lossy_text(stderr) },
        ),
        after_completion(o, ProcessOutcomeView::Exited { code, stdout, stderr })
            == after_completion(o, ProcessOutcomeView::Exited { code: Some(0i32), stdout, stderr }),
{
}

/// Once an outcome has been recorded no scan is under way, so the next launch
/// is decided by the stored configuration alone: no failure leaves the
/// orchestrator unusable.
pub proof fn lemma_ready_after_completion(o: OrchestratorView, outcome: ProcessOutcomeView)
    ensures
        !(after_completion(o, outcome).status is Running),
        after_completion(o, outcome).config == o.config,
        launch_answer(after_completion(o, outcome)) is Ok <==> first_missing(o.config) is None,
{
}

} // verus!
