use qemucomm::device::{
    add_after_probe, add_first_step, device_path, probe_exists, AddStep, BusEvent, DeleteError,
    DeviceDeletion, ErrorClass, WaitStep,
};

#[test]
fn device_path_is_under_peripheral() {
    assert_eq!(device_path("net0"), "/machine/peripheral/net0");
}

#[test]
fn probe_not_found_means_absent() {
    assert_eq!(probe_exists(Ok(())), Some(true));
    assert_eq!(probe_exists(Err(Some(ErrorClass::DeviceNotFound))), Some(false));
    assert_eq!(probe_exists(Err(Some(ErrorClass::GenericError))), None);
    assert_eq!(probe_exists(Err(None)), None);
}

#[test]
fn add_steps() {
    assert_eq!(add_first_step(false, true, true), AddStep::Add);
    assert_eq!(add_first_step(true, false, false), AddStep::Add);
    assert_eq!(add_first_step(true, true, false), AddStep::Probe);
    assert_eq!(add_after_probe(true, true, true), AddStep::Skip);
    assert_eq!(add_after_probe(true, true, false), AddStep::Replace);
    assert_eq!(add_after_probe(false, true, true), AddStep::Add);
}

fn deleted(name: &str) -> BusEvent {
    BusEvent::DeviceDeleted { device: Some(name.to_string()) }
}

#[test]
fn delete_wait_fails_when_stream_closes() {
    let mut d = DeviceDeletion::new("dev1".to_string(), true);
    assert_eq!(d.on_delete_reply::<String>(Ok(())), None);
    assert_eq!(d.on_event::<String>(&BusEvent::Other), WaitStep::Continue);
    assert_eq!(d.on_event::<String>(&deleted("dev2")), WaitStep::Continue);
    assert_eq!(
        d.on_event::<String>(&BusEvent::Closed),
        WaitStep::Finish(Err(DeleteError::EventNeverArrived))
    );
}

#[test]
fn delete_wait_succeeds_after_event_and_reply() {
    let mut d = DeviceDeletion::new("dev1".to_string(), true);
    assert_eq!(d.on_event::<String>(&BusEvent::Lagged), WaitStep::Continue);
    assert_eq!(d.on_event::<String>(&BusEvent::DeviceDeleted { device: None }), WaitStep::Continue);
    assert_eq!(d.on_event::<String>(&deleted("dev1")), WaitStep::Settle { delay_ms: 128 });
    assert_eq!(d.on_settled::<String>(), None);
    assert_eq!(d.on_delete_reply::<String>(Ok(())), Some(Ok(())));
}

#[test]
fn delete_wait_reply_after_settle() {
    let mut d = DeviceDeletion::new("dev1".to_string(), true);
    assert_eq!(d.on_delete_reply::<String>(Ok(())), None);
    assert_eq!(d.on_event::<String>(&deleted("dev1")), WaitStep::Settle { delay_ms: 128 });
    assert_eq!(d.on_settled::<String>(), Some(Ok(())));
}

#[test]
fn delete_failure_is_passed_on() {
    let mut d = DeviceDeletion::new("dev1".to_string(), true);
    assert_eq!(
        d.on_delete_reply(Err("no device".to_string())),
        Some(Err(DeleteError::Remote("no device".to_string())))
    );
}

#[test]
fn delete_without_wait_ends_on_reply() {
    let mut d = DeviceDeletion::new("dev1".to_string(), false);
    assert_eq!(d.on_delete_reply::<String>(Ok(())), Some(Ok(())));
}
