use security_scanner::download::{
    begin, step, DownloadAction, DownloadError, DownloadEvent, DownloadOutcome, DownloadState,
};

fn choosing(content: &str) -> DownloadState {
    DownloadState::ChoosingDestination { content: content.to_string() }
}

fn writing(path: &str) -> DownloadState {
    DownloadState::Writing { path: path.to_string() }
}

#[test]
fn a_download_begins_by_fetching() {
    assert_eq!(begin(), DownloadState::Fetching);
    assert!(begin().is_busy());
    assert_eq!(begin().text(), "Начало загрузки XML-файла...");
    assert_eq!(begin().saved_path(), None);
}

#[test]
fn a_fetched_text_asks_for_a_destination() {
    let (state, action) = step(begin(), DownloadEvent::Fetched { content: "<xml/>".to_string() });
    assert_eq!(state, choosing("<xml/>"));
    assert_eq!(action, DownloadAction::AskDestination);
    assert!(state.is_busy());
    assert_eq!(state.text(), "Начало загрузки XML-файла...");
}

#[test]
fn a_network_error_ends_the_download() {
    let error = DownloadError::NetworkError("timed out".to_string());
    let (state, action) = step(begin(), DownloadEvent::FetchFailed(error));
    assert_eq!(
        state,
        DownloadState::Finished(DownloadOutcome::Failed(DownloadError::NetworkError(
            "timed out".to_string()
        )))
    );
    assert_eq!(action, DownloadAction::Publish);
    assert!(!state.is_busy());
    assert_eq!(state.text(), "Ошибка загрузки файла: timed out");
}

#[test]
fn a_decode_error_ends_the_download() {
    let error = DownloadError::DecodeError("stream did not contain valid UTF-8".to_string());
    let (state, action) = step(begin(), DownloadEvent::FetchFailed(error));
    assert_eq!(action, DownloadAction::Publish);
    assert_eq!(
        state.text(),
        "Ошибка чтения содержимого ответа: stream did not contain valid UTF-8"
    );
}

#[test]
fn a_chosen_destination_writes_the_text_verbatim() {
    let (state, action) =
        step(choosing("<a>&amp;</a>\n"), DownloadEvent::DestinationChosen { path: "/x".to_string() });
    assert_eq!(state, writing("/x"));
    assert_eq!(
        action,
        DownloadAction::Write { path: "/x".to_string(), content: "<a>&amp;</a>\n".to_string() }
    );
}

#[test]
fn declining_the_destination_cancels() {
    let (state, action) = step(choosing("<xml/>"), DownloadEvent::DestinationDeclined);
    assert_eq!(state, DownloadState::Finished(DownloadOutcome::Cancelled));
    assert_eq!(action, DownloadAction::Publish);
    assert_eq!(state.text(), "Загрузка отменена пользователем.");
    assert_eq!(state.saved_path(), None);
    assert!(!matches!(state, DownloadState::Finished(DownloadOutcome::Failed(_))));
}

#[test]
fn a_written_file_is_saved() {
    let (state, action) = step(writing("/home/u/redos.xml"), DownloadEvent::Written);
    assert_eq!(
        state,
        DownloadState::Finished(DownloadOutcome::Saved { path: "/home/u/redos.xml".to_string() })
    );
    assert_eq!(action, DownloadAction::Publish);
    assert_eq!(state.saved_path(), Some("/home/u/redos.xml".to_string()));
    assert_eq!(
        state.text(),
        "XML-файл успешно загружен и сохранён по пути: /home/u/redos.xml"
    );
}

#[test]
fn a_failed_write_is_not_saved() {
    let (state, action) =
        step(writing("/ro/x.xml"), DownloadEvent::WriteFailed { reason: "read-only".to_string() });
    assert_eq!(
        state,
        DownloadState::Finished(DownloadOutcome::NotSaved { reason: "read-only".to_string() })
    );
    assert_eq!(action, DownloadAction::Publish);
    assert_eq!(state.text(), "Не удалось сохранить файл: read-only");
    assert_eq!(state.saved_path(), None);
}

#[test]
fn a_whole_download() {
    let state = begin();
    let (state, action) = step(state, DownloadEvent::Fetched { content: "body".to_string() });
    assert_eq!(action, DownloadAction::AskDestination);
    let (state, action) = step(state, DownloadEvent::DestinationChosen { path: "/p".to_string() });
    assert_eq!(action, DownloadAction::Write { path: "/p".to_string(), content: "body".to_string() });
    let (state, action) = step(state, DownloadEvent::Written);
    assert_eq!(action, DownloadAction::Publish);
    assert_eq!(state, DownloadState::Finished(DownloadOutcome::Saved { path: "/p".to_string() }));
}

#[test]
fn reports_that_do_not_fit_are_ignored() {
    let (state, action) = step(begin(), DownloadEvent::Written);
    assert_eq!((state, action), (DownloadState::Fetching, DownloadAction::Ignore));
    let (state, action) = step(begin(), DownloadEvent::DestinationDeclined);
    assert_eq!((state, action), (DownloadState::Fetching, DownloadAction::Ignore));
    let (state, action) = step(choosing("c"), DownloadEvent::Fetched { content: "d".to_string() });
    assert_eq!((state, action), (choosing("c"), DownloadAction::Ignore));
    let (state, action) = step(choosing("c"), DownloadEvent::Written);
    assert_eq!((state, action), (choosing("c"), DownloadAction::Ignore));
    let (state, action) = step(writing("/p"), DownloadEvent::DestinationDeclined);
    assert_eq!((state, action), (writing("/p"), DownloadAction::Ignore));
    let (state, action) =
        step(writing("/p"), DownloadEvent::DestinationChosen { path: "/q".to_string() });
    assert_eq!((state, action), (writing("/p"), DownloadAction::Ignore));
}

#[test]
fn a_finished_download_stays_finished() {
    let done = || DownloadState::Finished(DownloadOutcome::Cancelled);
    for event in [
        DownloadEvent::Fetched { content: "c".to_string() },
        DownloadEvent::FetchFailed(DownloadError::NetworkError("e".to_string())),
        DownloadEvent::DestinationChosen { path: "/p".to_string() },
        DownloadEvent::DestinationDeclined,
        DownloadEvent::Written,
        DownloadEvent::WriteFailed { reason: "r".to_string() },
    ] {
        assert_eq!(step(done(), event), (done(), DownloadAction::Ignore));
    }
}

#[test]
fn outcome_texts() {
    assert_eq!(
        DownloadOutcome::Saved { path: "/a".to_string() }.text(),
        "XML-файл успешно загружен и сохранён по пути: /a"
    );
    assert_eq!(DownloadOutcome::Cancelled.text(), "Загрузка отменена пользователем.");
    assert_eq!(
        DownloadOutcome::Failed(DownloadError::NetworkError("n".to_string())).text(),
        "Ошибка загрузки файла: n"
    );
    assert_eq!(
        DownloadOutcome::Failed(DownloadError::DecodeError("d".to_string())).text(),
        "Ошибка чтения содержимого ответа: d"
    );
    assert_eq!(
        DownloadOutcome::NotSaved { reason: "w".to_string() }.text(),
        "Не удалось сохранить файл: w"
    );
}
