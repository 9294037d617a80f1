//! Viewing the report that a compliance scan produced, or copying it to a
//! place of the user's choice.
//!
//! As with a download, the caller does the outside work (looking for the file,
//! opening it, asking for a destination, copying) and [`step`] decides what
//! follows from each of its reports.

use crate::text::joined;
use vstd::prelude::*;

verus! {

/// What the user wants done with the report.
#[derive(Clone, Copy, Debug, PartialEq, Eq, Structural)]
pub enum ReportRequest {
    /// Open it with the system's default application.
    Open,
    /// Copy it to a destination that the user chooses.
    Copy,
}

/// How a request ended.
#[derive(Debug, PartialEq, Eq)]
pub enum ReportOutcome {
    /// The report at `report_path` was handed to the default application.
    Opened { report_path: String },
    /// The report is there but could not be opened.
    OpenFailed { reason: String },
    /// There is no report at `report_path`.
    NotFound { report_path: String },
    /// The report was copied to `destination`.
    Copied { destination: String },
    /// The report could not be copied.
    CopyFailed { reason: String },
    /// The user closed the save dialog without choosing a destination.
    Cancelled,
}

/// A [`ReportOutcome`] with its texts as character sequences.
pub enum ReportOutcomeView {
    Opened { report_path: Seq<char> },
    OpenFailed { reason: Seq<char> },
    NotFound { report_path: Seq<char> },
    Copied { destination: Seq<char> },
    CopyFailed { reason: Seq<char> },
    Cancelled,
}

impl View for ReportOutcome {
    type V = ReportOutcomeView;

    open spec fn view(&self) -> ReportOutcomeView {
        match self {
            ReportOutcome::Opened { report_path } => ReportOutcomeView::Opened {
                report_path: report_path@,
            },
            ReportOutcome::OpenFailed { reason } => ReportOutcomeView::OpenFailed {
                reason: reason@,
            },
            ReportOutcome::NotFound { report_path } => ReportOutcomeView::NotFound {
                report_path: report_path@,
            },
            ReportOutcome::Copied { destination } => ReportOutcomeView::Copied {
                destination: destination@,
            },
            ReportOutcome::CopyFailed { reason } => ReportOutcomeView::CopyFailed {
                reason: reason@,
            },
            ReportOutcome::Cancelled => ReportOutcomeView::Cancelled,
        }
    }
}

/// Where a request stands.
#[derive(Debug, PartialEq, Eq)]
pub enum ReportState {
    /// The caller is looking whether the report is there.
    Checking { request: ReportRequest, report_path: String },
    /// The report is being opened.
    Opening { report_path: String },
    /// The user is asked where to copy the report.
    ChoosingDestination { report_path: String },
    /// The report is being copied to `destination`.
    Copying { destination: String },
    /// The request is over.
    Finished(ReportOutcome),
}

/// A [`ReportState`] with its texts as character sequences.
pub enum ReportStateView {
    Checking { request: ReportRequest, report_path: Seq<char> },
    Opening { report_path: Seq<char> },
    ChoosingDestination { report_path: Seq<char> },
    Copying { destination: Seq<char> },
    Finished(ReportOutcomeView),
}

impl View for ReportState {
    type V = ReportStateView;

    open spec fn view(&self) -> ReportStateView {
        match self {
            ReportState::Checking { request, report_path } => ReportStateView::Checking {
                request: *request,
                report_path: report_path@,
            },
            ReportState::Opening { report_path } => ReportStateView::Opening {
                report_path: report_path@,
            },
            ReportState::ChoosingDestination { report_path } => {
                ReportStateView::ChoosingDestination { report_path: report_path@ }
            },
            ReportState::Copying { destination } => ReportStateView::Copying {
                destination: destination@,
            },
            ReportState::Finished(outcome) => ReportStateView::Finished(outcome@),
        }
    }
}

/// What the caller reports back after a piece of outside work.
#[derive(Debug, PartialEq, Eq)]
pub enum ReportEvent {
    /// The report is there.
    Found,
    /// The report is not there.
    Missing,
    /// The report was handed to the default application.
    Opened,
    /// Opening failed.
    OpenFailed { reason: String },
    /// The user chose where to copy the report.
    DestinationChosen { path: String },
    /// The user closed the save dialog without choosing.
    DestinationDeclined,
    /// The copy was made.
    Copied,
    /// Copying failed.
    CopyFailed { reason: String },
}

/// A [`ReportEvent`] with its texts as character sequences.
pub enum ReportEventView {
    Found,
    Missing,
    Opened,
    OpenFailed { reason: Seq<char> },
    DestinationChosen { path: Seq<char> },
    DestinationDeclined,
    Copied,
    CopyFailed { reason: Seq<char> },
}

impl View for ReportEvent {
    type V = ReportEventView;

    open spec fn view(&self) -> ReportEventView {
        match self {
            ReportEvent::Found => ReportEventView::Found,
            ReportEvent::Missing => ReportEventView::Missing,
            ReportEvent::Opened => ReportEventView::Opened,
            ReportEvent::OpenFailed { reason } => ReportEventView::OpenFailed { reason: reason@ },
            ReportEvent::DestinationChosen { path } => ReportEventView::DestinationChosen {
                path: path@,
            },
            ReportEvent::DestinationDeclined => ReportEventView::DestinationDeclined,
            ReportEvent::Copied => ReportEventView::Copied,
            ReportEvent::CopyFailed { reason } => ReportEventView::CopyFailed { reason: reason@ },
        }
    }
}

/// What the caller is to do next.
#[derive(Debug, PartialEq, Eq)]
pub enum ReportAction {
    /// Open the report with the default application.
    Open { report_path: String },
    /// Ask the user where to copy the report.
    AskDestination,
    /// Copy the file at `from` to `to`.
    Copy { from: String, to: String },
    /// The request is over: publish its outcome.
    Publish,
    /// The report did not fit the state; nothing has changed.
    Ignore,
}

/// A [`ReportAction`] with its texts as character sequences.
pub enum ReportActionView {
    Open { report_path: Seq<char> },
    AskDestination,
    Copy { from: Seq<char>, to: Seq<char> },
    Publish,
    Ignore,
}

impl View for ReportAction {
    type V = ReportActionView;

    open spec fn view(&self) -> ReportActionView {
        match self {
            ReportAction::Open { report_path } => ReportActionView::Open {
                report_path: report_path@,
            },
            ReportAction::AskDestination => ReportActionView::AskDestination,
            ReportAction::Copy { from, to } => ReportActionView::Copy { from: from@, to: to@ },
            ReportAction::Publish => ReportActionView::Publish,
            ReportAction::Ignore => ReportActionView::Ignore,
        }
    }
}

/// The state that follows `state` when the caller reports `event`. A report
/// that does not fit the state leaves it as it is.
pub open spec fn next_state(state: ReportStateView, event: ReportEventView) -> ReportStateView {
    match (state, event) {
        (ReportStateView::Checking { report_path, .. }, ReportEventView::Missing) => {
            ReportStateView::Finished(ReportOutcomeView::NotFound { report_path })
        },
        (
            ReportStateView::Checking { request: ReportRequest::Open, report_path },
            ReportEventView::Found,
        ) => ReportStateView::Opening { report_path },
        (
            ReportStateView::Checking { request: ReportRequest::Copy, report_path },
            ReportEventView::Found,
        ) => ReportStateView::ChoosingDestination { report_path },
        (ReportStateView::Opening { report_path }, ReportEventView::Opened) => {
            ReportStateView::Finished(ReportOutcomeView::Opened { report_path })
        },
        (ReportStateView::Opening { .. }, ReportEventView::OpenFailed { reason }) => {
            ReportStateView::Finished(ReportOutcomeView::OpenFailed { reason })
        },
        (
            ReportStateView::ChoosingDestination { .. },
            ReportEventView::DestinationChosen { path },
        ) => ReportStateView::Copying { destination: path },
        (ReportStateView::ChoosingDestination { .. }, ReportEventView::DestinationDeclined) => {
            ReportStateView::Finished(ReportOutcomeView::Cancelled)
        },
        (ReportStateView::Copying { destination }, ReportEventView::Copied) => {
            ReportStateView::Finished(ReportOutcomeView::Copied { destination })
        },
        (ReportStateView::Copying { .. }, ReportEventView::CopyFailed { reason }) => {
            ReportStateView::Finished(ReportOutcomeView::CopyFailed { reason })
        },
        _ => state,
    }
}

/// What the caller is to do after reporting `event` in `state`: the next
/// piece of outside work, or to publish the outcome when the report has just
/// ended the request.
pub open spec fn next_action(state: ReportStateView, event: ReportEventView) -> ReportActionView {
    match (state, event) {
        (
            ReportStateView::Checking { request: ReportRequest::Open, report_path },
            ReportEventView::Found,
        ) => ReportActionView::Open { report_path },
        (
            ReportStateView::Checking { request: ReportRequest::Copy, .. },
            ReportEventView::Found,
        ) => ReportActionView::AskDestination,
        (
            ReportStateView::ChoosingDestination { report_path },
            ReportEventView::DestinationChosen { path },
        ) => ReportActionView::Copy { from: report_path, to: path },
        _ => {
            if !(state is Finished) && next_state(state, event) is Finished {
                ReportActionView::Publish
            } else {
                ReportActionView::Ignore
            }
        },
    }
}

/// How far a request has come: a number that grows with every report that
/// fits the state.
pub open spec fn progress(state: ReportStateView) -> nat {
    match state {
        ReportStateView::Checking { .. } => 0,
        ReportStateView::Opening { .. } => 1,
        ReportStateView::ChoosingDestination { .. } => 1,
        ReportStateView::Copying { .. } => 2,
        ReportStateView::Finished(_) => 3,
    }
}

/// The text that reports how a request ended.
pub open spec fn outcome_text(outcome: ReportOutcomeView) -> Seq<char> {
    match outcome {
        ReportOutcomeView::Opened { report_path } => "Открытие отчета: "@ + report_path,
        ReportOutcomeView::OpenFailed { reason } => "Не удалось открыть отчет: "@ + reason,
        ReportOutcomeView::NotFound { report_path } => "Отчет не найден по пути: "@ + report_path,
        ReportOutcomeView::Copied { destination } => "Отчет успешно скопирован в: "@
            + destination,
        ReportOutcomeView::CopyFailed { reason } => "Ошибка при копировании отчета: "@ + reason,
        ReportOutcomeView::Cancelled => "Скачивание отчета отменено пользователем."@,
    }
}

/// The state in which a request for the report at `report_path` begins: the
/// caller is to look whether the report is there.
pub fn begin(request: ReportRequest, report_path: String) -> (state: ReportState)
    ensures
        state@ == (ReportStateView::Checking { request, report_path: report_path@ }),
{
    ReportState::Checking { request, report_path }
}

/// Takes the caller's report and decides how the request goes on.
pub fn step(state: ReportState, event: ReportEvent) -> (next: (ReportState, ReportAction))
    ensures
        next.0@ == next_state(state@, event@),
        next.1@ == next_action(state@, event@),
{
    match state {
        ReportState::Checking { request, report_path } => match event {
            ReportEvent::Missing => (
                ReportState::Finished(ReportOutcome::NotFound { report_path }),
                ReportAction::Publish,
            ),
            ReportEvent::Found => match request {
                ReportRequest::Open => {
                    let target = report_path.clone();
                    (ReportState::Opening { report_path }, ReportAction::Open { report_path: target })
                },
                ReportRequest::Copy => (
                    ReportState::ChoosingDestination { report_path },
                    ReportAction::AskDestination,
                ),
            },
            _ => (ReportState::Checking { request, report_path }, ReportAction::Ignore),
        },
        ReportState::Opening { report_path } => match event {
            ReportEvent::Opened => (
                ReportState::Finished(ReportOutcome::Opened { report_path }),
                ReportAction::Publish,
            ),
            ReportEvent::OpenFailed { reason } => (
                ReportState::Finished(ReportOutcome::OpenFailed { reason }),
                ReportAction::Publish,
            ),
            _ => (ReportState::Opening { report_path }, ReportAction::Ignore),
        },
        ReportState::ChoosingDestination { report_path } => match event {
            ReportEvent::DestinationChosen { path } => {
                let to = path.clone();
                (
                    ReportState::Copying { destination: path },
                    ReportAction::Copy { from: report_path, to },
                )
            },
            ReportEvent::DestinationDeclined => (
                ReportState::Finished(ReportOutcome::Cancelled),
                ReportAction::Publish,
            ),
            _ => (ReportState::ChoosingDestination { report_path }, ReportAction::Ignore),
        },
        ReportState::Copying { destination } => match event {
            ReportEvent::Copied => (
                ReportState::Finished(ReportOutcome::Copied { destination }),
                ReportAction::Publish,
            ),
            ReportEvent::CopyFailed { reason } => (
                ReportState::Finished(ReportOutcome::CopyFailed { reason }),
                ReportAction::Publish,
            ),
            _ => (ReportState::Copying { destination }, ReportAction::Ignore),
        },
        ReportState::Finished(outcome) => (ReportState::Finished(outcome), ReportAction::Ignore),
    }
}

impl ReportOutcome {
    /// The text that reports this outcome.
    pub fn text(&self) -> (text: String)
        ensures
            text@ == outcome_text(self@),
    {
        match self {
            ReportOutcome::Opened { report_path } => joined(
                "Открытие отчета: ",
                report_path.as_str(),
            ),
            ReportOutcome::OpenFailed { reason } => joined(
                "Не удалось открыть отчет: ",
                reason.as_str(),
            ),
            ReportOutcome::NotFound { report_path } => joined(
                "Отчет не найден по пути: ",
                report_path.as_str(),
            ),
            ReportOutcome::Copied { destination } => joined(
                "Отчет успешно скопирован в: ",
                destination.as_str(),
            ),
            ReportOutcome::CopyFailed { reason } => joined(
                "Ошибка при копировании отчета: ",
                reason.as_str(),
            ),
            ReportOutcome::Cancelled => String::from_str(
                "Скачивание отчета отменено пользователем.",
            ),
        }
    }
}

impl ReportState {
    /// The outcome's text once the request is over, nothing before.
    pub fn published_text(&self) -> (text: Option<String>)
        ensures
            match text {
                Some(t) => self@ is Finished && t@ == outcome_text(self@->Finished_0),
                None => !(self@ is Finished),
            },
    {
        match self {
            ReportState::Finished(outcome) => Some(outcome.text()),
            _ => None,
        }
    }
}

/// A report that is not there is neither opened nor copied: the request ends
/// at once as `NotFound`, whichever it was.
pub proof fn lemma_missing_report_ends_request(request: ReportRequest, report_path: Seq<char>)
    ensures
        next_state(ReportStateView::Checking { request, report_path }, ReportEventView::Missing)
            == ReportStateView::Finished(ReportOutcomeView::NotFound { report_path }),
        next_action(ReportStateView::Checking { request, report_path }, ReportEventView::Missing)
            == ReportActionView::Publish,
{
}

/// The caller is told to open or to copy only after it has found the report,
/// and to copy only to the destination that the user chose, from the report's
/// own path.
pub proof fn lemma_outside_work_follows_a_finding(state: ReportStateView, event: ReportEventView)
    ensures
        next_action(state, event) matches ReportActionView::Open { report_path } ==> event is Found
            && state == (ReportStateView::Checking { request: ReportRequest::Open, report_path }),
        next_action(state, event) matches ReportActionView::Copy { from, to } ==> state == (
            ReportStateView::ChoosingDestination { report_path: from }) && event == (
            ReportEventView::DestinationChosen { path: to }),
        next_state(state, event) is ChoosingDestination && !(state is ChoosingDestination)
            ==> event is Found && state is Checking,
{
}

/// A report either fits the state and brings the request forward, or is
/// ignored and changes nothing; so a request is over after at most three
/// reports that fit.
pub proof fn lemma_reports_advance_or_are_ignored(state: ReportStateView, event: ReportEventView)
    ensures
        next_action(state, event) is Ignore ==> next_state(state, event) == state,
        !(next_action(state, event) is Ignore) ==> progress(next_state(state, event)) > progress(
            state,
        ),
        next_action(state, event) is Publish <==> !(state is Finished) && next_state(
            state,
            event,
        ) is Finished,
        progress(state) <= 3,
{
}

/// Declining to choose a destination ends a copy request as `Cancelled`, and a
/// request comes to be `Cancelled` in no other way.
pub proof fn lemma_declining_cancels_copy(state: ReportStateView, event: ReportEventView)
    ensures
        state is ChoosingDestination && event is DestinationDeclined ==> next_state(state, event)
            == ReportStateView::Finished(ReportOutcomeView::Cancelled),
        next_state(state, event) == ReportStateView::Finished(ReportOutcomeView::Cancelled)
            ==> state == ReportStateView::Finished(ReportOutcomeView::Cancelled) || (state is ChoosingDestination
            && event is DestinationDeclined),
{
}

} // verus!
