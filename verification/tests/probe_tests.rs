use lambda_web_adapter::{
    probe_status_ready, Adapter, AdapterOptions, Checkpoint, ProbeOutcome, ProbeStep,
    PROBE_RETRY_DELAY_MS,
};

#[test]
fn test_status_200_is_ok() {
    // default healthy set: every status from 100 up to (not including) 500
    assert!(probe_status_ready(500, 200));
}

#[test]
fn test_status_500_is_bad() {
    assert!(!probe_status_ready(500, 500));
}

#[test]
fn test_status_403_is_bad_when_configured() {
    // statuses from 400 up configured unhealthy
    assert!(!probe_status_ready(400, 403));
}

#[test]
fn test_healthy_set_membership() {
    // ready exactly on membership: 250 is in, 99 and 403 are out
    assert!(probe_status_ready(400, 250));
    assert!(!probe_status_ready(400, 99));
    assert!(probe_status_ready(500, 404));
    assert!(!probe_status_ready(200, 200));
}

#[test]
fn test_probe_session_http_ready() {
    let adapter = Adapter::new(&AdapterOptions::default(), 0).unwrap();
    let mut adapter = adapter;
    let session = adapter.probe_session(0, None);
    // the app answers 200 on the readiness path: the probe loop stops
    let step = session.evaluate(5, &ProbeOutcome::Status(200));
    assert_eq!(step, ProbeStep::Ready);
    adapter.mark_ready(true);
    assert!(!adapter.needs_init_probe());
}

#[test]
fn test_probe_session_retries_on_unhealthy_status() {
    let adapter = Adapter::new(
        &AdapterOptions {
            readiness_check_min_unhealthy_status: 400,
            ..AdapterOptions::default()
        },
        0,
    )
    .unwrap();
    let session = adapter.probe_session(0, None);
    // 403 is outside the configured healthy set: never ready, keep trying
    assert_eq!(session.evaluate(5, &ProbeOutcome::Status(403)), ProbeStep::Retry);
    assert_eq!(session.evaluate(60_000, &ProbeOutcome::Status(403)), ProbeStep::Retry);
    assert_eq!(session.evaluate(60_000, &ProbeOutcome::Status(399)), ProbeStep::Ready);
}

#[test]
fn test_probe_session_transport_failure_retries() {
    let adapter = Adapter::new(&AdapterOptions::default(), 0).unwrap();
    let session = adapter.probe_session(0, None);
    assert_eq!(session.evaluate(5, &ProbeOutcome::Failed), ProbeStep::Retry);
}

#[test]
fn test_probe_session_tcp_connect_is_ready() {
    let adapter = Adapter::new(&AdapterOptions::default(), 0).unwrap();
    let session = adapter.probe_session(0, None);
    assert_eq!(session.evaluate(5, &ProbeOutcome::Connected), ProbeStep::Ready);
}

#[test]
fn test_probe_session_deadline() {
    let adapter = Adapter::new(&AdapterOptions::default(), 0).unwrap();
    let session = adapter.probe_session(0, Some(9800));
    assert_eq!(session.evaluate(9799, &ProbeOutcome::Failed), ProbeStep::Retry);
    assert_eq!(session.evaluate(9800, &ProbeOutcome::Failed), ProbeStep::DeadlineExpired);
    // readiness on the last attempt still wins over the deadline
    assert_eq!(session.evaluate(9800, &ProbeOutcome::Status(200)), ProbeStep::Ready);
}

#[test]
fn test_probe_retry_delay_is_fixed() {
    assert_eq!(PROBE_RETRY_DELAY_MS, 10);
}

#[test]
fn test_checkpoint_logs_once_per_interval() {
    let mut cp = Checkpoint::new(1000);
    assert!(!cp.lapsed(1000));
    assert!(!cp.lapsed(3000));
    assert!(cp.lapsed(3001));
    // poll reports the due line once and advances the checkpoint
    assert!(cp.poll(3001));
    assert!(!cp.poll(3001));
    assert_eq!(cp.next_ms, 4000);
    assert!(cp.poll(5500));
    assert_eq!(cp.next_ms, 6000);
}
