use update_orchestrator::error::{CheckError, InstallError, UpdateError};
use update_orchestrator::info::UpdateInfo;
use update_orchestrator::orchestrator::{Orchestrator, Phase};
use update_orchestrator::progress::ProgressEvent;

fn offered(version: &str, size: Option<u64>) -> UpdateInfo {
    UpdateInfo {
        version: version.to_string(),
        release_date: None,
        release_notes: String::from("Bug fixes"),
        download_size: size,
    }
}

fn percent(e: &ProgressEvent) -> f64 {
    match e.progress_fraction() {
        Some((n, d)) => (n as f64 / d as f64) * 100.0,
        None => 0.0,
    }
}

/// Brings an orchestrator to the point where the artifact is streaming.
fn downloading(size: Option<u64>) -> Orchestrator {
    let mut o = Orchestrator::new();
    o.begin_check().unwrap();
    o.finish_check(Ok(Some(offered("1.2.0", size)))).unwrap();
    o.begin_install().unwrap();
    let t = o.finish_confirm(Ok(Some(offered("1.2.0", size))));
    assert!(t.publish.is_none());
    assert!(t.result.is_ok());
    o
}

#[test]
fn four_chunks_report_quarters_then_complete() {
    let mut o = Orchestrator::new();
    o.begin_check().unwrap();
    let info = o.finish_check(Ok(Some(offered("1.2.0", Some(1000))))).unwrap();
    assert_eq!(info.version, "1.2.0");
    assert!(matches!(o.phase(), Phase::Available { .. }));
    o.begin_install().unwrap();
    let t = o.finish_confirm(Ok(Some(offered("1.2.0", Some(1000)))));
    assert!(t.publish.is_none() && t.result.is_ok());

    let mut published = Vec::new();
    for _ in 0..4 {
        published.push(o.on_chunk(250, None));
    }
    let percents: Vec<f64> = published.iter().map(percent).collect();
    assert_eq!(percents, vec![25.0, 50.0, 75.0, 100.0]);
    let bytes: Vec<u64> = published
        .iter()
        .map(|e| match e {
            ProgressEvent::Downloading { bytes_downloaded, .. } => *bytes_downloaded,
            _ => panic!("not a download report"),
        })
        .collect();
    assert_eq!(bytes, vec![250, 500, 750, 1000]);

    let done = o.download_finished();
    assert!(matches!(done, ProgressEvent::Completed));
    assert!(done.is_final());
    assert!(matches!(o.phase(), Phase::Installing));

    let t = o.finish_install(Ok(()));
    assert!(t.publish.is_none());
    assert!(t.result.is_ok());
    assert!(matches!(o.phase(), Phase::Idle));
}

#[test]
fn absent_update_is_reported_and_check_can_run_again() {
    let mut o = Orchestrator::new();
    o.begin_check().unwrap();
    let r = o.finish_check(Ok(None));
    assert!(matches!(r, Err(UpdateError::NoUpdatesAvailable)));
    assert_eq!(r.unwrap_err().message(), "No updates available");
    assert!(matches!(o.phase(), Phase::Idle));
    assert!(!o.is_in_flight());
    assert!(o.begin_check().is_ok());
    assert!(matches!(o.phase(), Phase::Checking));
}

#[test]
fn stream_error_after_two_chunks_fails_once_without_install() {
    let mut o = downloading(Some(1000));
    let first = o.on_chunk(250, None);
    let second = o.on_chunk(250, None);
    assert!(!first.is_final() && !second.is_final());
    assert_eq!(percent(&second), 50.0);
    let t = o.finish_install(Err(InstallError::Transport(String::from("connection reset"))));
    match &t.publish {
        Some(ProgressEvent::Failed { message }) => {
            assert_eq!(message, "Error installing update: connection reset")
        }
        other => panic!("expected one Failed event, got {:?}", other),
    }
    match t.result {
        Err(e) => assert_eq!(e.message(), "Error installing update: connection reset"),
        Ok(()) => panic!("the session must fail"),
    }
    assert!(matches!(o.phase(), Phase::Idle));
}

#[test]
fn second_check_while_checking_is_refused() {
    let mut o = Orchestrator::new();
    assert!(o.begin_check().is_ok());
    let r = o.begin_check();
    assert!(matches!(r, Err(UpdateError::ConcurrentOperation)));
    assert!(matches!(o.phase(), Phase::Checking));
    let r = o.begin_install();
    assert!(matches!(r, Err(UpdateError::ConcurrentOperation)));
}

#[test]
fn check_during_download_is_refused() {
    let mut o = downloading(Some(10));
    o.on_chunk(3, None);
    assert!(o.is_in_flight());
    assert!(matches!(o.begin_check(), Err(UpdateError::ConcurrentOperation)));
    match o.phase() {
        Phase::Downloading { downloaded, .. } => assert_eq!(*downloaded, 3),
        other => panic!("unexpected phase {:?}", other),
    }
    o.download_finished();
    assert!(matches!(o.begin_check(), Err(UpdateError::ConcurrentOperation)));
}

#[test]
fn install_without_check_has_no_session() {
    let mut o = Orchestrator::new();
    let r = o.begin_install();
    assert!(matches!(r, Err(UpdateError::NoSession)));
    assert!(matches!(o.phase(), Phase::Idle));
    o.begin_check().unwrap();
    let _ = o.finish_check(Ok(None));
    assert!(matches!(o.begin_install(), Err(UpdateError::NoSession)));
}

#[test]
fn withdrawn_update_fails_the_session() {
    let mut o = Orchestrator::new();
    o.begin_check().unwrap();
    o.finish_check(Ok(Some(offered("2.0.0", None)))).unwrap();
    o.begin_install().unwrap();
    assert!(matches!(o.phase(), Phase::Confirming));
    let t = o.finish_confirm(Ok(None));
    assert!(matches!(t.result, Err(UpdateError::NoLongerAvailable)));
    match t.publish {
        Some(ProgressEvent::Failed { message }) => assert_eq!(message, "No updates available to install"),
        other => panic!("expected a Failed event, got {:?}", other),
    }
    assert!(matches!(o.phase(), Phase::Idle));
}

#[test]
fn recheck_error_fails_the_session() {
    let mut o = Orchestrator::new();
    o.begin_check().unwrap();
    o.finish_check(Ok(Some(offered("2.0.0", None)))).unwrap();
    o.begin_install().unwrap();
    let t = o.finish_confirm(Err(CheckError::Network(String::from("timed out"))));
    assert!(matches!(t.result, Err(UpdateError::Check(CheckError::Network(_)))));
    match t.publish {
        Some(ProgressEvent::Failed { message }) => {
            assert_eq!(message, "Error checking for updates: timed out")
        }
        other => panic!("expected a Failed event, got {:?}", other),
    }
}

#[test]
fn check_error_returns_to_idle() {
    let mut o = Orchestrator::new();
    o.begin_check().unwrap();
    let r = o.finish_check(Err(CheckError::MalformedResponse(String::from("bad manifest"))));
    match r {
        Err(e) => assert_eq!(e.message(), "Error checking for updates: bad manifest"),
        Ok(_) => panic!("the check must fail"),
    }
    assert!(matches!(o.phase(), Phase::Idle));
}

#[test]
fn installer_failure_after_completed_adds_no_event() {
    let mut o = downloading(Some(4));
    o.on_chunk(4, None);
    assert!(matches!(o.download_finished(), ProgressEvent::Completed));
    let t = o.finish_install(Err(InstallError::Platform(String::from("cannot replace binary"))));
    assert!(t.publish.is_none());
    match t.result {
        Err(e) => assert_eq!(e.message(), "Error installing update: cannot replace binary"),
        Ok(()) => panic!("the install must fail"),
    }
    assert!(matches!(o.phase(), Phase::Idle));
}

#[test]
fn install_success_without_finish_signal_completes() {
    let mut o = downloading(None);
    o.on_chunk(10, None);
    let t = o.finish_install(Ok(()));
    assert!(matches!(t.publish, Some(ProgressEvent::Completed)));
    assert!(t.result.is_ok());
}

#[test]
fn unknown_or_zero_total_reads_as_no_progress() {
    let mut o = downloading(None);
    let e = o.on_chunk(100, None);
    assert!(e.progress_fraction().is_none());
    assert_eq!(percent(&e), 0.0);
    let e = o.on_chunk(100, Some(0));
    assert!(e.progress_fraction().is_none());
    let e = o.on_chunk(100, Some(400));
    assert_eq!(e.progress_fraction(), Some((300, 400)));
    assert_eq!(percent(&e), 75.0);
}

#[test]
fn announced_length_takes_precedence_over_size() {
    let mut o = downloading(Some(1000));
    let e = o.on_chunk(500, Some(2000));
    assert_eq!(e.progress_fraction(), Some((500, 2000)));
    assert_eq!(percent(&e), 25.0);
}

#[test]
fn byte_count_saturates() {
    let mut o = downloading(None);
    o.on_chunk(u64::MAX - 5, None);
    let e = o.on_chunk(10, Some(u64::MAX));
    match e {
        ProgressEvent::Downloading { bytes_downloaded, total_bytes } => {
            assert_eq!(bytes_downloaded, u64::MAX);
            assert_eq!(total_bytes, Some(u64::MAX));
        }
        other => panic!("unexpected event {:?}", other),
    }
    let e = o.on_chunk(0, None);
    assert!(matches!(e, ProgressEvent::Downloading { bytes_downloaded: u64::MAX, .. }));
}

#[test]
fn a_new_session_can_follow_a_failed_one() {
    let mut o = downloading(Some(100));
    o.finish_install(Err(InstallError::Integrity(String::from("bad signature"))));
    assert!(o.begin_install().is_err());
    o.begin_check().unwrap();
    o.finish_check(Ok(Some(offered("1.2.1", Some(100))))).unwrap();
    o.begin_install().unwrap();
    o.finish_confirm(Ok(Some(offered("1.2.1", Some(100)))));
    let e = o.on_chunk(40, None);
    assert_eq!(e.progress_fraction(), Some((40, 100)));
}

#[test]
fn error_texts() {
    assert_eq!(UpdateError::ConcurrentOperation.message(), "Another update operation is in progress");
    assert_eq!(UpdateError::NoSession.message(), "No update has been found to install");
    assert_eq!(CheckError::Network(String::from("x")).message(), "x");
    assert_eq!(InstallError::Integrity(String::from("sig")).message(), "sig");
}

#[test]
fn bytes_beyond_the_total_read_as_complete() {
    let mut o = downloading(Some(5));
    let e = o.on_chunk(10, None);
    assert!(matches!(e, ProgressEvent::Downloading { bytes_downloaded: 10, total_bytes: Some(5) }));
    assert_eq!(e.progress_fraction(), Some((5, 5)));
    assert_eq!(percent(&e), 100.0);
    let e = o.on_chunk(7, Some(20));
    assert_eq!(e.progress_fraction(), Some((17, 20)));
    assert_eq!(percent(&e), 85.0);
}

#[test]
fn percentages_stay_within_range_for_any_chunks() {
    let mut o = downloading(Some(1000));
    for chunk in [0u64, 400, 1, 900, 0, 12345] {
        let p = percent(&o.on_chunk(chunk, None));
        assert!(p.is_finite() && (0.0..=100.0).contains(&p));
    }
    let p = percent(&o.on_chunk(3, Some(0)));
    assert_eq!(p, 0.0);
}
