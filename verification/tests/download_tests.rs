use media_wizard::download::{
    check_response_status, ChunkAction, DownloadError, DownloadSession, DownloadSignal,
};
use media_wizard::engine::WizardEvent;

#[test]
fn session_starts_at_zero() {
    let session = DownloadSession::start(Some(4096));
    assert_eq!(session.progress.bytes_done, 0);
    assert_eq!(session.progress.bytes_total, Some(4096));
    assert!(!session.cancelled);
}

#[test]
fn chunks_accumulate() {
    let mut session = DownloadSession::start(None);
    session.record_chunk(100);
    assert_eq!(session.progress.bytes_done, 100);
    session.record_chunk(200);
    assert_eq!(session.progress.bytes_done, 300);
    assert!(session.progress.bytes_total.is_none());
}

#[test]
fn progress_never_decreases_within_a_session() {
    let mut session = DownloadSession::start(Some(1000));
    let mut last = session.progress.bytes_done;
    for chunk in [0u64, 64, 1, 512] {
        session.record_chunk(chunk);
        assert!(session.progress.bytes_done >= last);
        last = session.progress.bytes_done;
    }
    assert_eq!(last, 577);
}

#[test]
fn count_can_reach_the_largest_size() {
    let mut session = DownloadSession::start(None);
    session.record_chunk(u64::MAX - 1);
    session.record_chunk(1);
    assert_eq!(session.progress.bytes_done, u64::MAX);
}

#[test]
fn success_status_admits_the_stream() {
    assert!(check_response_status(200).is_ok());
    assert!(check_response_status(204).is_ok());
    assert!(check_response_status(299).is_ok());
}

#[test]
fn non_success_status_is_a_distinct_failure() {
    let r = check_response_status(404);
    assert!(matches!(r, Err(DownloadError::NonSuccessStatus(404))));
    assert!(matches!(check_response_status(199), Err(DownloadError::NonSuccessStatus(199))));
    assert!(matches!(check_response_status(300), Err(DownloadError::NonSuccessStatus(300))));
    assert!(matches!(check_response_status(500), Err(DownloadError::NonSuccessStatus(500))));
}

#[test]
fn failure_signal_differs_from_success_signal() {
    let failed = DownloadSignal::Failed(DownloadError::NonSuccessStatus(503));
    let completed = DownloadSignal::Completed("image.part".to_string());
    assert!(matches!(failed, DownloadSignal::Failed(_)));
    assert!(matches!(completed, DownloadSignal::Completed(_)));
    assert!(!matches!(failed, DownloadSignal::Completed(_)));
}

#[test]
fn chunk_loop_reports_cumulative_progress() {
    let mut session = DownloadSession::start(Some(2048));
    match session.on_chunk(512) {
        ChunkAction::Report(done, total) => {
            assert_eq!(done, 512);
            assert_eq!(total, Some(2048));
        },
        _ => panic!("an active session reports after a chunk"),
    }
    match session.on_chunk(512) {
        ChunkAction::Report(done, total) => {
            assert_eq!(done, 1024);
            assert_eq!(total, Some(2048));
        },
        _ => panic!("an active session reports after a chunk"),
    }
}

#[test]
fn cancellation_stops_the_chunk_loop() {
    let mut session = DownloadSession::start(None);
    session.record_chunk(128);
    session.cancel();
    assert!(session.cancelled);
    assert!(matches!(session.on_chunk(64), ChunkAction::Stopped));
    assert_eq!(session.progress.bytes_done, 128);
}

#[test]
fn progress_event_carries_the_session_counts() {
    let mut session = DownloadSession::start(Some(900));
    session.record_chunk(300);
    match session.progress_event() {
        WizardEvent::DownloadProgressed(done, total) => {
            assert_eq!(done, 300);
            assert_eq!(total, Some(900));
        },
        _ => panic!("a session posts progress events"),
    }
}
