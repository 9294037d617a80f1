//! Fetching the vulnerability definitions and saving them where the user says.
//!
//! A download alternates work that only the caller can do (the request, the
//! save dialog, the write) with decisions. The decisions are [`step`]: from the
//! state and what the caller reports to the next state and what to do next.
//! The fetched text is never looked into; it is handed back verbatim for
//! writing. A download that has begun cannot be cancelled from outside; it
//! ends by itself, or by the user declining to choose a destination.

use crate::text::joined;
use vstd::prelude::*;

verus! {

/// Why the definitions could not be fetched.
#[derive(Debug, PartialEq, Eq)]
pub enum DownloadError {
    /// The transfer failed; the text describes the transport or HTTP error.
    NetworkError(String),
    /// The response arrived but its body could not be read as text.
    DecodeError(String),
}

/// A [`DownloadError`] with its text as a character sequence.
pub enum DownloadErrorView {
    NetworkError(Seq<char>),
    DecodeError(Seq<char>),
}

impl View for DownloadError {
    type V = DownloadErrorView;

    open spec fn view(&self) -> DownloadErrorView {
        match self {
            DownloadError::NetworkError(reason) => DownloadErrorView::NetworkError(reason@),
            DownloadError::DecodeError(reason) => DownloadErrorView::DecodeError(reason@),
        }
    }
}

/// How a download ended.
#[derive(Debug, PartialEq, Eq)]
pub enum DownloadOutcome {
    /// The definitions were written to `path`.
    Saved { path: String },
    /// The user closed the save dialog without choosing a destination.
    Cancelled,
    /// The definitions could not be fetched.
    Failed(DownloadError),
    /// The definitions were fetched but could not be written.
    NotSaved { reason: String },
}

/// A [`DownloadOutcome`] with its texts as character sequences.
pub enum DownloadOutcomeView {
    Saved { path: Seq<char> },
    Cancelled,
    Failed(DownloadErrorView),
    NotSaved { reason: Seq<char> },
}

impl View for DownloadOutcome {
    type V = DownloadOutcomeView;

    open spec fn view(&self) -> DownloadOutcomeView {
        match self {
            DownloadOutcome::Saved { path } => DownloadOutcomeView::Saved { path: path@ },
            DownloadOutcome::Cancelled => DownloadOutcomeView::Cancelled,
            DownloadOutcome::Failed(error) => DownloadOutcomeView::Failed(error@),
            DownloadOutcome::NotSaved { reason } => DownloadOutcomeView::NotSaved {
                reason: reason@,
            },
        }
    }
}

/// Where a download stands.
#[derive(Debug, PartialEq, Eq)]
pub enum DownloadState {
    /// The request is under way.
    Fetching,
    /// The text has arrived; the user is asked where to save it.
    ChoosingDestination { content: String },
    /// The text is being written to `path`.
    Writing { path: String },
    /// The download is over.
    Finished(DownloadOutcome),
}

/// A [`DownloadState`] with its texts as character sequences.
pub enum DownloadStateView {
    Fetching,
    ChoosingDestination { content: Seq<char> },
    Writing { path: Seq<char> },
    Finished(DownloadOutcomeView),
}

impl View for DownloadState {
    type V = DownloadStateView;

    open spec fn view(&self) -> DownloadStateView {
        match self {
            DownloadState::Fetching => DownloadStateView::Fetching,
            DownloadState::ChoosingDestination { content } => {
                DownloadStateView::ChoosingDestination { content: content@ }
            },
            DownloadState::Writing { path } => DownloadStateView::Writing { path: path@ },
            DownloadState::Finished(outcome) => DownloadStateView::Finished(outcome@),
        }
    }
}

/// What the caller reports back after a piece of outside work.
#[derive(Debug, PartialEq, Eq)]
pub enum DownloadEvent {
    /// The request succeeded and the body was read as text.
    Fetched { content: String },
    /// The request or the reading of its body failed.
    FetchFailed(DownloadError),
    /// The user chose where to save.
    DestinationChosen { path: String },
    /// The user closed the save dialog without choosing.
    DestinationDeclined,
    /// The file was written.
    Written,
    /// The file could not be written.
    WriteFailed { reason: String },
}

/// A [`DownloadEvent`] with its texts as character sequences.
pub enum DownloadEventView {
    Fetched { content: Seq<char> },
    FetchFailed(DownloadErrorView),
    DestinationChosen { path: Seq<char> },
    DestinationDeclined,
    Written,
    WriteFailed { reason: Seq<char> },
}

impl View for DownloadEvent {
    type V = DownloadEventView;

    open spec fn view(&self) -> DownloadEventView {
        match self {
            DownloadEvent::Fetched { content } => DownloadEventView::Fetched { content: content@ },
            DownloadEvent::FetchFailed(error) => DownloadEventView::FetchFailed(error@),
            DownloadEvent::DestinationChosen { path } => DownloadEventView::DestinationChosen {
                path: path@,
            },
            DownloadEvent::DestinationDeclined => DownloadEventView::DestinationDeclined,
            DownloadEvent::Written => DownloadEventView::Written,
            DownloadEvent::WriteFailed { reason } => DownloadEventView::WriteFailed {
                reason: reason@,
            },
        }
    }
}

/// What the caller is to do next.
#[derive(Debug, PartialEq, Eq)]
pub enum DownloadAction {
    /// Ask the user where to save the definitions.
    AskDestination,
    /// Write `content`, as it is, to `path`.
    Write { path: String, content: String },
    /// The download is over: publish its outcome.
    Publish,
    /// The report did not fit the state; nothing has changed.
    Ignore,
}

/// A [`DownloadAction`] with its texts as character sequences.
pub enum DownloadActionView {
    AskDestination,
    Write { path: Seq<char>, content: Seq<char> },
    Publish,
    Ignore,
}

impl View for DownloadAction {
    type V = DownloadActionView;

    open spec fn view(&self) -> DownloadActionView {
        match self {
            DownloadAction::AskDestination => DownloadActionView::AskDestination,
            DownloadAction::Write { path, content } => DownloadActionView::Write {
                path: path@,
                content: content@,
            },
            DownloadAction::Publish => DownloadActionView::Publish,
            DownloadAction::Ignore => DownloadActionView::Ignore,
        }
    }
}

/// The state that follows `state` when the caller reports `event`. A report
/// that does not fit the state leaves it as it is.
pub open spec fn next_state(
    state: DownloadStateView,
    event: DownloadEventView,
) -> DownloadStateView {
    match (state, event) {
        (DownloadStateView::Fetching, DownloadEventView::Fetched { content }) => {
            DownloadStateView::ChoosingDestination { content }
        },
        (DownloadStateView::Fetching, DownloadEventView::FetchFailed(error)) => {
            DownloadStateView::Finished(DownloadOutcomeView::Failed(error))
        },
        (
            DownloadStateView::ChoosingDestination { .. },
            DownloadEventView::DestinationChosen { path },
        ) => DownloadStateView::Writing { path },
        (DownloadStateView::ChoosingDestination { .. }, DownloadEventView::DestinationDeclined) => {
            DownloadStateView::Finished(DownloadOutcomeView::Cancelled)
        },
        (DownloadStateView::Writing { path }, DownloadEventView::Written) => {
            DownloadStateView::Finished(DownloadOutcomeView::Saved { path })
        },
        (DownloadStateView::Writing { .. }, DownloadEventView::WriteFailed { reason }) => {
            DownloadStateView::Finished(DownloadOutcomeView::NotSaved { reason })
        },
        _ => state,
    }
}

/// What the caller is to do after reporting `event` in `state`: the next
/// piece of outside work, or to publish the outcome when the report has just
/// ended the download.
pub open spec fn next_action(
    state: DownloadStateView,
    event: DownloadEventView,
) -> DownloadActionView {
    match (state, event) {
        (DownloadStateView::Fetching, DownloadEventView::Fetched { .. }) => {
            DownloadActionView::AskDestination
        },
        (
            DownloadStateView::ChoosingDestination { content },
            DownloadEventView::DestinationChosen { path },
        ) => DownloadActionView::Write { path, content },
        _ => {
            if !(state is Finished) && next_state(state, event) is Finished {
                DownloadActionView::Publish
            } else {
                DownloadActionView::Ignore
            }
        },
    }
}

/// How far a download has come: a number that grows with every report that
/// fits the state.
pub open spec fn progress(state: DownloadStateView) -> nat {
    match state {
        DownloadStateView::Fetching => 0,
        DownloadStateView::ChoosingDestination { .. } => 1,
        DownloadStateView::Writing { .. } => 2,
        DownloadStateView::Finished(_) => 3,
    }
}

/// The text that reports how a download ended.
pub open spec fn outcome_text(outcome: DownloadOutcomeView) -> Seq<char> {
    match outcome {
        DownloadOutcomeView::Saved { path } => {
            "XML-файл успешно загружен и сохранён по пути: "@ + path
        },
        DownloadOutcomeView::Cancelled => "Загрузка отменена пользователем."@,
        DownloadOutcomeView::Failed(DownloadErrorView::NetworkError(reason)) => {
            "Ошибка загрузки файла: "@ + reason
        },
        DownloadOutcomeView::Failed(DownloadErrorView::DecodeError(reason)) => {
            "Ошибка чтения содержимого ответа: "@ + reason
        },
        DownloadOutcomeView::NotSaved { reason } => "Не удалось сохранить файл: "@ + reason,
    }
}

/// The text that shows where a download stands: a notice while it is under
/// way, the outcome's text once it is over.
pub open spec fn state_text(state: DownloadStateView) -> Seq<char> {
    match state {
        DownloadStateView::Finished(outcome) => outcome_text(outcome),
        _ => "Начало загрузки XML-файла..."@,
    }
}

/// The state in which every download begins.
pub fn begin() -> (state: DownloadState)
    ensures
        state@ == DownloadStateView::Fetching,
{
    DownloadState::Fetching
}

/// Takes the caller's report and decides how the download goes on.
pub fn step(state: DownloadState, event: DownloadEvent) -> (next: (DownloadState, DownloadAction))
    ensures
        next.0@ == next_state(state@, event@),
        next.1@ == next_action(state@, event@),
{
    match state {
        DownloadState::Fetching => match event {
            DownloadEvent::Fetched { content } => (
                DownloadState::ChoosingDestination { content },
                DownloadAction::AskDestination,
            ),
            DownloadEvent::FetchFailed(error) => (
                DownloadState::Finished(DownloadOutcome::Failed(error)),
                DownloadAction::Publish,
            ),
            _ => (DownloadState::Fetching, DownloadAction::Ignore),
        },
        DownloadState::ChoosingDestination { content } => match event {
            DownloadEvent::DestinationChosen { path } => {
                let target = path.clone();
                (DownloadState::Writing { path }, DownloadAction::Write { path: target, content })
            },
            DownloadEvent::DestinationDeclined => (
                DownloadState::Finished(DownloadOutcome::Cancelled),
                DownloadAction::Publish,
            ),
            _ => (DownloadState::ChoosingDestination { content }, DownloadAction::Ignore),
        },
        DownloadState::Writing { path } => match event {
            DownloadEvent::Written => (
                DownloadState::Finished(DownloadOutcome::Saved { path }),
                DownloadAction::Publish,
            ),
            DownloadEvent::WriteFailed { reason } => (
                DownloadState::Finished(DownloadOutcome::NotSaved { reason }),
                DownloadAction::Publish,
            ),
            _ => (DownloadState::Writing { path }, DownloadAction::Ignore),
        },
        DownloadState::Finished(outcome) => (DownloadState::Finished(outcome), DownloadAction::Ignore),
    }
}

impl DownloadOutcome {
    /// The text that reports this outcome.
    pub fn text(&self) -> (text: String)
        ensures
            text@ == outcome_text(self@),
    {
        match self {
            DownloadOutcome::Saved { path } => joined(
                "XML-файл успешно загружен и сохранён по пути: ",
                path.as_str(),
            ),
            DownloadOutcome::Cancelled => String::from_str("Загрузка отменена пользователем."),
            DownloadOutcome::Failed(DownloadError::NetworkError(reason)) => joined(
                "Ошибка загрузки файла: ",
                reason.as_str(),
            ),
            DownloadOutcome::Failed(DownloadError::DecodeError(reason)) => joined(
                "Ошибка чтения содержимого ответа: ",
                reason.as_str(),
            ),
            DownloadOutcome::NotSaved { reason } => joined(
                "Не удалось сохранить файл: ",
                reason.as_str(),
            ),
        }
    }
}

impl DownloadState {
    /// Whether the download is still under way.
    pub fn is_busy(&self) -> (busy: bool)
        ensures
            busy == !(self@ is Finished),
    {
        match self {
            DownloadState::Finished(_) => false,
            _ => true,
        }
    }

    /// The text that shows where the download stands.
    pub fn text(&self) -> (text: String)
        ensures
            text@ == state_text(self@),
    {
        match self {
            DownloadState::Finished(outcome) => outcome.text(),
            _ => String::from_str("Начало загрузки XML-файла..."),
        }
    }

    /// The path that the definitions were saved to, once they have been.
    pub fn saved_path(&self) -> (path: Option<String>)
        ensures
            match path {
                Some(p) => self@ == DownloadStateView::Finished(
                    DownloadOutcomeView::Saved { path: p@ },
                ),
                None => !(self@ matches DownloadStateView::Finished(
                    DownloadOutcomeView::Saved { .. },
                )),
            },
    {
        match self {
            DownloadState::Finished(DownloadOutcome::Saved { path }) => Some(path.clone()),
            _ => None,
        }
    }
}

/// Declining to choose a destination ends the download as `Cancelled`, which
/// is neither of the fetch errors; and a download comes to be `Cancelled` in no
/// other way.
pub proof fn lemma_declining_cancels(state: DownloadStateView, event: DownloadEventView)
    ensures
        state is ChoosingDestination && event is DestinationDeclined ==> next_state(state, event)
            == DownloadStateView::Finished(DownloadOutcomeView::Cancelled),
        next_state(state, event) == DownloadStateView::Finished(DownloadOutcomeView::Cancelled)
            ==> state == DownloadStateView::Finished(DownloadOutcomeView::Cancelled) || (state is ChoosingDestination
            && event is DestinationDeclined),
        !(DownloadOutcomeView::Cancelled is Failed),
{
}

/// A fetch error ends the download before any destination is asked for, and
/// the outcome carries that very error.
pub proof fn lemma_fetch_error_ends_download(error: DownloadErrorView)
    ensures
        next_state(DownloadStateView::Fetching, DownloadEventView::FetchFailed(error))
            == DownloadStateView::Finished(DownloadOutcomeView::Failed(error)),
        next_action(DownloadStateView::Fetching, DownloadEventView::FetchFailed(error))
            == DownloadActionView::Publish,
{
}

/// What is written is the fetched text, unchanged, at the chosen destination;
/// and only a successful write makes the outcome `Saved`, at that destination.
pub proof fn lemma_saved_means_written(content: Seq<char>, path: Seq<char>)
    ensures
        next_action(
            DownloadStateView::ChoosingDestination { content },
            DownloadEventView::DestinationChosen { path },
        ) == (DownloadActionView::Write { path, content }),
        next_state(
            next_state(
                DownloadStateView::ChoosingDestination { content },
                DownloadEventView::DestinationChosen { path },
            ),
            DownloadEventView::Written,
        ) == DownloadStateView::Finished(DownloadOutcomeView::Saved { path }),
{
}

/// A report either fits the state and brings the download forward, or is
/// ignored and changes nothing; so a download is over after at most three
/// reports that fit.
pub proof fn lemma_reports_advance_or_are_ignored(
    state: DownloadStateView,
    event: DownloadEventView,
)
    ensures
        next_action(state, event) is Ignore ==> next_state(state, event) == state,
        !(next_action(state, event) is Ignore) ==> progress(next_state(state, event)) > progress(
            state,
        ),
        next_action(state, event) is Publish <==> !(state is Finished) && next_state(
            state,
            event,
        ) is Finished,
        progress(state) <= 3,
{
}

/// A download that is over stays as it is, whatever is reported afterwards.
pub proof fn lemma_finished_is_final(outcome: DownloadOutcomeView, event: DownloadEventView)
    ensures
        next_state(DownloadStateView::Finished(outcome), event) == DownloadStateView::Finished(
            outcome,
        ),
        next_action(DownloadStateView::Finished(outcome), event) == DownloadActionView::Ignore,
{
}

} // verus!
