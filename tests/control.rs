use czmq::{ControlError, MonitorStage, Phase, Step, ZAuth, ZMonitor, ZMonitorError, ZMonitorEvents};

fn frames(s: &Step) -> Vec<String> {
    match s {
        Step::Transmit(cmd) => cmd.frames.clone(),
        other => panic!("expected a command to send, got {:?}", other),
    }
}

fn confirm_auth(zauth: &mut ZAuth) -> Result<(), ControlError> {
    assert!(matches!(zauth.on_sent(0), Step::AwaitStatus));
    assert_eq!(zauth.current_phase(), Phase::AwaitingStatus);
    match zauth.on_status(0) {
        Step::Finish(r) => r,
        other => panic!("expected the end of the exchange, got {:?}", other),
    }
}

fn confirm_monitor(zmonitor: &mut ZMonitor) -> Result<(), ControlError> {
    assert!(matches!(zmonitor.on_sent(0), Step::AwaitStatus));
    match zmonitor.on_status(0) {
        Step::Finish(r) => r,
        other => panic!("expected the end of the exchange, got {:?}", other),
    }
}

#[test]
fn test_zauth() {
    let mut zauth = ZAuth::new(true).unwrap();

    let s = zauth.verbose();
    assert_eq!(frames(&s), vec!["VERBOSE"]);
    assert!(confirm_auth(&mut zauth).is_ok());

    let s = zauth.deny("127.0.0.1");
    assert_eq!(frames(&s), vec!["DENY", "127.0.0.1"]);
    assert!(confirm_auth(&mut zauth).is_ok());

    let s = zauth.allow("127.0.0.1");
    assert_eq!(frames(&s), vec!["ALLOW", "127.0.0.1"]);
    assert!(confirm_auth(&mut zauth).is_ok());

    let s = zauth.load_plain("/tmp/passwords");
    assert_eq!(frames(&s), vec!["PLAIN", "/tmp/passwords"]);
    confirm_auth(&mut zauth).unwrap();

    let s = zauth.load_curve(None);
    assert_eq!(frames(&s), vec!["CURVE", "*"]);
    confirm_auth(&mut zauth).unwrap();

    let s = zauth.load_curve(Some("/tmp/czmq_test"));
    assert_eq!(frames(&s), vec!["CURVE", "/tmp/czmq_test"]);
    confirm_auth(&mut zauth).unwrap();
    assert_eq!(zauth.current_phase(), Phase::Idle);
}

#[test]
fn test_attrs() {
    let mut server_mon = ZMonitor::new(true).unwrap();
    assert_eq!(frames(&server_mon.set_attrs(&[ZMonitorEvents::All])), vec!["LISTEN", "ALL"]);
    confirm_monitor(&mut server_mon).unwrap();
    assert_eq!(frames(&server_mon.start()), vec!["START"]);
    confirm_monitor(&mut server_mon).unwrap();

    let mut client_mon = ZMonitor::new(true).unwrap();
    assert_eq!(frames(&client_mon.set_attrs(&[ZMonitorEvents::All])), vec!["LISTEN", "ALL"]);
    confirm_monitor(&mut client_mon).unwrap();
    assert_eq!(frames(&client_mon.start()), vec!["START"]);
    confirm_monitor(&mut client_mon).unwrap();

    let event = server_mon.get_attr(Some(b"LISTENING".to_vec()));
    assert_eq!(event.unwrap().unwrap(), ZMonitorEvents::Listening);

    let event = client_mon.get_attr(Some(b"CONNECTED".to_vec()));
    assert_eq!(event.unwrap().unwrap(), ZMonitorEvents::Connected);
}

#[test]
fn test_verbose() {
    let mut zmonitor = ZMonitor::new(true).unwrap();
    assert_eq!(frames(&zmonitor.verbose()), vec!["VERBOSE"]);
    let r = match zmonitor.on_sent(0) {
        Step::Finish(r) => r,
        other => panic!("verbose waits for no reply, got {:?}", other),
    };
    assert!(r.is_ok());
    assert_eq!(zmonitor.current_phase(), Phase::Idle);
}

#[test]
fn gssapi_is_not_implemented() {
    let zauth = ZAuth::new(true).unwrap();
    assert_eq!(zauth.load_gssapi(), Err(ControlError::NotImplemented));
    assert_eq!(zauth.current_phase(), Phase::Idle);
}

#[test]
fn construction_failures() {
    assert_eq!(ZAuth::new(false).err(), Some(ControlError::Instantiate));
    assert_eq!(ZMonitor::new(false).err(), Some(ZMonitorError::Instantiate));
    assert_eq!(
        ZMonitorError::Instantiate.description(),
        "Could not instantiate new ZMonitor struct"
    );
    assert_eq!(
        ZMonitorError::Instantiate.to_string(),
        "Could not instantiate new ZMonitor struct"
    );
}

#[test]
fn failed_send_ends_with_channel_error() {
    let mut zauth = ZAuth::new(true).unwrap();
    let _ = zauth.deny("10.0.0.1");
    assert_eq!(zauth.current_phase(), Phase::Sending);
    match zauth.on_sent(-1) {
        Step::Finish(r) => assert_eq!(r, Err(ControlError::Channel)),
        other => panic!("expected a failure, got {:?}", other),
    }
    assert_eq!(zauth.current_phase(), Phase::Idle);
}

#[test]
fn failed_status_ends_with_channel_error() {
    let mut zauth = ZAuth::new(true).unwrap();
    let _ = zauth.allow("");
    assert!(matches!(zauth.on_sent(0), Step::AwaitStatus));
    match zauth.on_status(-1) {
        Step::Finish(r) => assert_eq!(r, Err(ControlError::Channel)),
        other => panic!("expected a failure, got {:?}", other),
    }
    assert_eq!(zauth.current_phase(), Phase::Idle);
}

#[test]
fn allow_passes_address_through() {
    let mut zauth = ZAuth::new(true).unwrap();
    assert_eq!(frames(&zauth.allow("")), vec!["ALLOW", ""]);
}

#[test]
fn monitor_stages_follow_confirmations() {
    let mut zmonitor = ZMonitor::new(true).unwrap();
    assert_eq!(zmonitor.current_stage(), MonitorStage::Constructed);

    let _ = zmonitor.set_attrs(&[ZMonitorEvents::Listening]);
    assert!(matches!(zmonitor.on_sent(0), Step::AwaitStatus));
    assert!(matches!(zmonitor.on_status(-1), Step::Finish(Err(ControlError::Channel))));
    assert_eq!(zmonitor.current_stage(), MonitorStage::Constructed);

    let _ = zmonitor.set_attrs(&[ZMonitorEvents::Listening]);
    confirm_monitor(&mut zmonitor).unwrap();
    assert_eq!(zmonitor.current_stage(), MonitorStage::Configured);

    let _ = zmonitor.verbose();
    let _ = zmonitor.on_sent(0);
    assert_eq!(zmonitor.current_stage(), MonitorStage::Configured);

    let _ = zmonitor.start();
    confirm_monitor(&mut zmonitor).unwrap();
    assert_eq!(zmonitor.current_stage(), MonitorStage::Started);

    let _ = zmonitor.set_attrs(&[]);
    confirm_monitor(&mut zmonitor).unwrap();
    assert_eq!(zmonitor.current_stage(), MonitorStage::Started);
}

#[test]
fn start_before_set_attrs_is_permitted() {
    let mut zmonitor = ZMonitor::new(true).unwrap();
    assert_eq!(frames(&zmonitor.start()), vec!["START"]);
    confirm_monitor(&mut zmonitor).unwrap();
    assert_eq!(zmonitor.current_stage(), MonitorStage::Started);
}

#[test]
fn set_attrs_keeps_order_and_duplicates() {
    let mut zmonitor = ZMonitor::new(true).unwrap();
    let s = zmonitor.set_attrs(&[
        ZMonitorEvents::Closed,
        ZMonitorEvents::Accepted,
        ZMonitorEvents::Closed,
    ]);
    assert_eq!(frames(&s), vec!["LISTEN", "CLOSED", "ACCEPTED", "CLOSED"]);
}

#[test]
fn set_attrs_with_no_categories() {
    let mut zmonitor = ZMonitor::new(true).unwrap();
    assert_eq!(frames(&zmonitor.set_attrs(&[])), vec!["LISTEN"]);
}

#[test]
fn failed_read_is_a_channel_error() {
    let zmonitor = ZMonitor::new(true).unwrap();
    assert_eq!(zmonitor.get_attr(None), Err(ControlError::Channel));
}

#[test]
fn unknown_text_event_is_unknown() {
    let zmonitor = ZMonitor::new(true).unwrap();
    let event = zmonitor.get_attr(Some(b"SOMETHING_ELSE".to_vec()));
    assert_eq!(event, Ok(Ok(ZMonitorEvents::Unknown)));
}

#[test]
fn non_text_event_is_returned_raw() {
    let zmonitor = ZMonitor::new(true).unwrap();
    let raw = vec![0xffu8, 0xfe, 0x41];
    assert_eq!(zmonitor.get_attr(Some(raw.clone())), Ok(Err(raw)));
    let truncated = vec![0x4cu8, 0xe2, 0x82];
    assert_eq!(zmonitor.get_attr(Some(truncated.clone())), Ok(Err(truncated)));
}

#[test]
fn empty_frame_is_unknown() {
    let zmonitor = ZMonitor::new(true).unwrap();
    assert_eq!(zmonitor.get_attr(Some(Vec::new())), Ok(Ok(ZMonitorEvents::Unknown)));
}
