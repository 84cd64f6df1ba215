use esparrier_config::hotplug::wait_for_device;
use esparrier_config::hotplug::PlugEvent;
use esparrier_config::hotplug::Target;
use esparrier_config::hotplug::WaitStep;
use esparrier_config::DeviceFilter;
use esparrier_config::DeviceIdentity;
use esparrier_config::Error;

fn kvm(bus: &str, address: u8) -> DeviceIdentity {
    DeviceIdentity { vendor_id: 0x0d0a, product_id: 0xc0de, bus_id: bus.to_string(), device_address: address }
}

fn mouse() -> DeviceIdentity {
    DeviceIdentity { vendor_id: 0x046d, product_id: 0xc077, bus_id: "1".to_string(), device_address: 9 }
}

fn filter() -> DeviceFilter {
    DeviceFilter { vid: Some(0x0d0a), pid: Some(0xc0de), bus: None, address: None }
}

fn opening(step: WaitStep) -> (esparrier_config::hotplug::PendingOpen, bool) {
    match step {
        WaitStep::Open { pending, pause } => (pending, pause),
        _ => panic!("expected a device to open"),
    }
}

fn listening(step: WaitStep) -> esparrier_config::hotplug::Watcher {
    match step {
        WaitStep::Listen(watcher) => watcher,
        _ => panic!("expected to listen"),
    }
}

#[test]
fn connected_device_is_opened_first() {
    let devices = vec![mouse(), kvm("1", 4)];
    let (pending, pause) = opening(wait_for_device(filter(), &devices));
    assert_eq!(pending.target(), Target::Listed(1));
    assert!(!pause);
    assert!(matches!(pending.on_result(Ok(())), WaitStep::Found));
}

#[test]
fn without_a_matching_device_the_caller_listens() {
    listening(wait_for_device(filter(), &vec![mouse()]));
    listening(wait_for_device(filter(), &Vec::new()));
}

#[test]
fn busy_device_is_tried_again_after_a_pause() {
    let devices = vec![kvm("1", 4), kvm("1", 5)];
    let (pending, _) = opening(wait_for_device(filter(), &devices));
    let (pending, pause) = opening(pending.on_result(Err(Error::DeviceBusy)));
    assert_eq!(pending.target(), Target::Listed(0));
    assert!(pause);
    let (pending, pause) = opening(pending.on_result(Err(Error::DeviceBusy)));
    assert_eq!(pending.target(), Target::Listed(0));
    assert!(pause);
    assert!(matches!(pending.on_result(Ok(())), WaitStep::Found));
}

#[test]
fn failing_device_is_passed_over() {
    let devices = vec![kvm("1", 4), mouse(), kvm("1", 5)];
    let (pending, _) = opening(wait_for_device(filter(), &devices));
    assert_eq!(pending.target(), Target::Listed(0));
    let (pending, pause) = opening(pending.on_result(Err(Error::UnknownDevice)));
    assert_eq!(pending.target(), Target::Listed(2));
    assert!(!pause);
    let (pending, _) = opening(pending.on_result(Err(Error::DeviceBusy)));
    assert_eq!(pending.target(), Target::Listed(2));
    listening(pending.on_result(Err(Error::PermissionDenied)));
}

#[test]
fn arriving_device_is_opened_if_it_matches() {
    let watcher = listening(wait_for_device(filter(), &Vec::new()));
    let watcher = listening(watcher.on_event(&PlugEvent::Connected(mouse())));
    let watcher = listening(watcher.on_event(&PlugEvent::Disconnected));
    let (pending, pause) = opening(watcher.on_event(&PlugEvent::Connected(kvm("2", 1))));
    assert_eq!(pending.target(), Target::Arrived);
    assert!(!pause);
    assert!(matches!(pending.on_result(Ok(())), WaitStep::Found));
}

#[test]
fn arriving_device_that_fails_is_not_tried_again() {
    let watcher = listening(wait_for_device(filter(), &Vec::new()));
    let (pending, _) = opening(watcher.on_event(&PlugEvent::Connected(kvm("2", 1))));
    let watcher = listening(pending.on_result(Err(Error::DeviceBusy)));
    let (pending, _) = opening(watcher.on_event(&PlugEvent::Connected(kvm("2", 1))));
    listening(pending.on_result(Err(Error::UnknownDevice)));
}

#[test]
fn end_of_events_ends_the_wait() {
    let watcher = listening(wait_for_device(filter(), &Vec::new()));
    assert!(matches!(watcher.on_event(&PlugEvent::Ended), WaitStep::NotFound));
}

#[test]
fn filter_is_kept_through_the_scan() {
    let by_bus = DeviceFilter { vid: None, pid: None, bus: Some("2".to_string()), address: None };
    let (pending, _) = opening(wait_for_device(by_bus, &vec![kvm("02", 1)]));
    assert_eq!(pending.target(), Target::Listed(0));
    let watcher = listening(pending.on_result(Err(Error::UnknownDevice)));
    let watcher = listening(watcher.on_event(&PlugEvent::Connected(kvm("3", 1))));
    let (pending, _) = opening(watcher.on_event(&PlugEvent::Connected(kvm("002", 1))));
    assert_eq!(pending.target(), Target::Arrived);
}
