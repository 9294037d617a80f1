//! What a scan has come to, and the text that shows it.

use vstd::prelude::*;

verus! {

/// The outcome of one scan: what the tool wrote, or why there is nothing to
/// show. A failure is told from a run only by this value, never by a panic or
/// an error of the library.
#[derive(Debug, PartialEq, Eq)]
pub enum ScanResult {
    /// The tool ran; both streams as text, whatever its exit code was.
    Output { stdout: String, stderr: String },
    /// The tool did not run: a required path was missing, or the process could
    /// not be started.
    Failure { failure_reason: String },
}

/// A [`ScanResult`] with its texts as character sequences.
pub enum ScanResultView {
    Output { stdout: Seq<char>, stderr: Seq<char> },
    Failure { failure_reason: Seq<char> },
}

impl View for ScanResult {
    type V = ScanResultView;

    open spec fn view(&self) -> ScanResultView {
        match self {
            ScanResult::Output { stdout, stderr } => ScanResultView::Output {
                stdout: stdout@,
                stderr: stderr@,
            },
            ScanResult::Failure { failure_reason } => ScanResultView::Failure {
                failure_reason: failure_reason@,
            },
        }
    }
}

/// Whether a scan is under way, and what the last one came to.
#[derive(Debug, PartialEq, Eq)]
pub enum RunStatus {
    /// No scan has been launched yet.
    Idle,
    /// A scan has been launched and has not reported back.
    Running,
    /// The last launch has ended with this result.
    Completed(ScanResult),
}

/// A [`RunStatus`] with its texts as character sequences.
pub enum RunStatusView {
    Idle,
    Running,
    Completed(ScanResultView),
}

impl View for RunStatus {
    type V = RunStatusView;

    open spec fn view(&self) -> RunStatusView {
        match self {
            RunStatus::Idle => RunStatusView::Idle,
            RunStatus::Running => RunStatusView::Running,
            RunStatus::Completed(result) => RunStatusView::Completed(result@),
        }
    }
}

/// The text that shows a result: both streams under their headings, or the
/// reason of the failure as it is.
pub open spec fn result_text(result: ScanResultView) -> Seq<char> {
    match result {
        ScanResultView::Output { stdout, stderr } => "STDOUT:\n"@ + stdout + "\nSTDERR:\n"@
            + stderr,
        ScanResultView::Failure { failure_reason } => failure_reason,
    }
}

/// The text that shows a status: nothing before the first launch, a notice
/// while a scan runs, the result's text afterwards.
pub open spec fn status_text(status: RunStatusView) -> Seq<char> {
    match status {
        RunStatusView::Idle => Seq::empty(),
        RunStatusView::Running => "Начало сканирования..."@,
        RunStatusView::Completed(result) => result_text(result),
    }
}

impl ScanResult {
    /// The text to show for this result.
    pub fn text(&self) -> (text: String)
        ensures
            text@ == result_text(self@),
    {
        match self {
            ScanResult::Output { stdout, stderr } => {
                let mut text = String::from_str("STDOUT:\n");
                text.append(stdout.as_str());
                text.append("\nSTDERR:\n");
                text.append(stderr.as_str());
                text
            },
            ScanResult::Failure { failure_reason } => failure_reason.clone(),
        }
    }
}

impl Clone for ScanResult {
    fn clone(&self) -> (copy: Self)
        ensures
            copy@ == self@,
    {
        match self {
            ScanResult::Output { stdout, stderr } => ScanResult::Output {
                stdout: stdout.clone(),
                stderr: stderr.clone(),
            },
            ScanResult::Failure { failure_reason } => ScanResult::Failure {
                failure_reason: failure_reason.clone(),
            },
        }
    }
}

impl RunStatus {
    /// Whether a scan is under way.
    pub fn is_running(&self) -> (running: bool)
        ensures
            running == (self@ is Running),
    {
        match self {
            RunStatus::Running => true,
            _ => false,
        }
    }

    /// The text to show for this status.
    pub fn text(&self) -> (text: String)
        ensures
            text@ == status_text(self@),
    {
        match self {
            RunStatus::Idle => String::new(),
            RunStatus::Running => String::from_str("Начало сканирования..."),
            RunStatus::Completed(result) => result.text(),
        }
    }
}

impl Clone for RunStatus {
    fn clone(&self) -> (copy: Self)
        ensures
            copy@ == self@,
    {
        match self {
            RunStatus::Idle => RunStatus::Idle,
            RunStatus::Running => RunStatus::Running,
            RunStatus::Completed(result) => RunStatus::Completed(result.clone()),
        }
    }
}

} // verus!
