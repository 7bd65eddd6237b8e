use buttplug::device::communication::CommunicationEvent;
use buttplug::device::configuration::{DeviceLayout, ProtocolDefinition};
use buttplug::device::manager::{DeviceManager, ServerEvent};
use buttplug::device::protocol::{ProtocolHandler, ProtocolIdentifier};
use buttplug::message::{ActuatorType, ButtplugDeviceMessageType};

fn two_vibrators(name: &str, identifier: ProtocolIdentifier, display: &str) -> ProtocolDefinition {
    ProtocolDefinition {
        names: vec![name.to_string()],
        addresses: vec![],
        identifier,
        display_name: display.to_string(),
        layout: DeviceLayout {
            scalar: vec![ActuatorType::Vibrate, ActuatorType::Vibrate],
            rotate: 0,
            linear: 0,
            sensors: vec![],
        },
    }
}

fn table() -> Vec<ProtocolDefinition> {
    vec![
        two_vibrators("Massage Demo", ProtocolIdentifier::Aneros, "Aneros Vivi"),
        two_vibrators("Je Joue*", ProtocolIdentifier::JeJoue, "Je Joue Device"),
    ]
}

fn found(name: &str, address: &str, handle: u32) -> CommunicationEvent<u32> {
    CommunicationEvent::DeviceDiscovered {
        address: address.to_string(),
        name: name.to_string(),
        handle,
    }
}

fn vibrator_messages() -> Vec<ButtplugDeviceMessageType> {
    vec![
        ButtplugDeviceMessageType::ScalarCmd,
        ButtplugDeviceMessageType::VibrateCmd,
        ButtplugDeviceMessageType::SingleMotorVibrateCmd,
        ButtplugDeviceMessageType::StopDeviceCmd,
    ]
}

fn added(index: u32, name: &str) -> ServerEvent {
    ServerEvent::DeviceAdded {
        index,
        name: name.to_string(),
        device_messages: vibrator_messages(),
    }
}

#[test]
fn new_manager_has_no_devices() {
    let manager: DeviceManager<u32> = DeviceManager::new(table(), true);
    assert!(manager.allow_raw());
    assert!(manager.device(0).is_none());
    assert_eq!(manager.device_index("A"), None);
}

#[test]
fn discovery_binds_and_announces() {
    let mut manager = DeviceManager::new(table(), false);
    assert_eq!(manager.handle_event(found("Massage Demo", "A", 7)), vec![added(0, "Aneros Vivi")]);
    assert_eq!(manager.handle_event(found("Je Joue 2", "B", 8)), vec![added(1, "Je Joue Device")]);
    assert_eq!(manager.device_index("A"), Some(0));
    assert_eq!(manager.device_index("B"), Some(1));
    let first = manager.device(0).expect("device 0");
    assert_eq!(first.name(), "Aneros Vivi");
    assert_eq!(*first.handle(), 7);
    assert!(first.connected());
    assert!(!first.allow_raw());
    assert_eq!(*first.handler(), ProtocolHandler::new(ProtocolIdentifier::Aneros));
    assert_eq!(first.layout().scalar, vec![ActuatorType::Vibrate, ActuatorType::Vibrate]);
    assert_eq!(first.device_messages(), vibrator_messages());
    let second = manager.device(1).expect("device 1");
    assert_eq!(*second.handler(), ProtocolHandler::new(ProtocolIdentifier::JeJoue));
    assert_eq!(*second.handle(), 8);
    assert!(manager.device(2).is_none());
}

#[test]
fn unknown_devices_are_ignored() {
    let mut manager = DeviceManager::new(table(), false);
    assert_eq!(manager.handle_event(found("Heart Rate Strap", "A", 1)), vec![]);
    assert_eq!(manager.device_index("A"), None);
    assert!(manager.device(0).is_none());
    // The next device still gets the first index.
    assert_eq!(manager.handle_event(found("Massage Demo", "B", 2)), vec![added(0, "Aneros Vivi")]);
}

#[test]
fn repeated_announcements_add_one_device() {
    let mut manager = DeviceManager::new(table(), false);
    let mut events = manager.handle_event(found("Massage Demo", "A", 1));
    events.extend(manager.handle_event(found("Massage Demo", "A", 2)));
    events.extend(manager.handle_event(found("Je Joue", "A", 3)));
    assert_eq!(events, vec![added(0, "Aneros Vivi")]);
    // The one entry is that of the first announcement.
    assert_eq!(*manager.device(0).expect("device 0").handle(), 1);
    assert!(manager.device(1).is_none());
}

#[test]
fn reconnection_keeps_the_index() {
    let mut manager = DeviceManager::new(table(), false);
    assert_eq!(manager.handle_event(found("Massage Demo", "A", 1)), vec![added(0, "Aneros Vivi")]);
    assert_eq!(manager.handle_event(found("Je Joue", "B", 2)), vec![added(1, "Je Joue Device")]);
    assert_eq!(manager.device_disconnected(0), vec![ServerEvent::DeviceRemoved { index: 0 }]);
    assert!(manager.device(0).is_none());
    assert_eq!(manager.device_index("A"), Some(0));
    // Another device arrives while the first is away: it does not take index 0.
    assert_eq!(manager.handle_event(found("Massage Demo", "C", 3)), vec![added(2, "Aneros Vivi")]);
    assert_eq!(manager.handle_event(found("Massage Demo", "A", 4)), vec![added(0, "Aneros Vivi")]);
    assert_eq!(*manager.device(0).expect("device 0").handle(), 4);
    assert_eq!(*manager.device(1).expect("device 1").handle(), 2);
    assert_eq!(*manager.device(2).expect("device 2").handle(), 3);
}

#[test]
fn stale_device_is_removed_before_it_is_added_again() {
    let mut manager = DeviceManager::new(table(), false);
    assert_eq!(manager.handle_event(found("Massage Demo", "A", 1)), vec![added(0, "Aneros Vivi")]);
    manager.connection_lost(0);
    let stale = manager.device(0).expect("still registered");
    assert!(!stale.connected());
    assert_eq!(*stale.handle(), 1);
    assert_eq!(
        manager.handle_event(found("Massage Demo", "A", 2)),
        vec![ServerEvent::DeviceRemoved { index: 0 }, added(0, "Aneros Vivi")]
    );
    let fresh = manager.device(0).expect("device 0");
    assert!(fresh.connected());
    assert_eq!(*fresh.handle(), 2);
}

#[test]
fn stale_device_that_no_longer_matches_is_only_removed() {
    let mut manager = DeviceManager::new(table(), false);
    assert_eq!(manager.handle_event(found("Massage Demo", "A", 1)), vec![added(0, "Aneros Vivi")]);
    manager.connection_lost(0);
    assert_eq!(
        manager.handle_event(found("Renamed", "A", 2)),
        vec![ServerEvent::DeviceRemoved { index: 0 }]
    );
    assert!(manager.device(0).is_none());
    assert_eq!(manager.device_index("A"), Some(0));
    assert_eq!(manager.handle_event(found("Renamed", "A", 3)), vec![]);
}

#[test]
fn rediscovery_may_bind_another_family() {
    let mut manager = DeviceManager::new(table(), false);
    assert_eq!(manager.handle_event(found("Massage Demo", "A", 1)), vec![added(0, "Aneros Vivi")]);
    assert_eq!(manager.device_disconnected(0), vec![ServerEvent::DeviceRemoved { index: 0 }]);
    assert_eq!(manager.handle_event(found("Je Joue", "A", 2)), vec![added(0, "Je Joue Device")]);
    assert_eq!(
        *manager.device(0).expect("device 0").handler(),
        ProtocolHandler::new(ProtocolIdentifier::JeJoue)
    );
}

#[test]
fn disconnect_is_announced_once() {
    let mut manager = DeviceManager::new(table(), false);
    assert_eq!(manager.device_disconnected(0), vec![]);
    assert_eq!(manager.handle_event(found("Massage Demo", "A", 1)), vec![added(0, "Aneros Vivi")]);
    assert_eq!(manager.device_disconnected(5), vec![]);
    assert_eq!(manager.device_disconnected(0), vec![ServerEvent::DeviceRemoved { index: 0 }]);
    assert_eq!(manager.device_disconnected(0), vec![]);
}

#[test]
fn device_lost_removes_the_device_at_the_address() {
    let mut manager = DeviceManager::new(table(), false);
    assert_eq!(manager.handle_event(found("Massage Demo", "A", 1)), vec![added(0, "Aneros Vivi")]);
    assert_eq!(manager.handle_event(found("Massage Demo", "B", 2)), vec![added(1, "Aneros Vivi")]);
    let lost = |address: &str| CommunicationEvent::<u32>::DeviceLost { address: address.to_string() };
    assert_eq!(manager.handle_event(lost("Z")), vec![]);
    assert_eq!(manager.handle_event(lost("B")), vec![ServerEvent::DeviceRemoved { index: 1 }]);
    assert_eq!(manager.handle_event(lost("B")), vec![]);
    assert!(manager.device(0).is_some());
    assert!(manager.device(1).is_none());
}

#[test]
fn scanning_finished_is_passed_on() {
    let mut manager: DeviceManager<u32> = DeviceManager::new(table(), false);
    assert_eq!(
        manager.handle_event(CommunicationEvent::ScanningFinished),
        vec![ServerEvent::ScanningFinished]
    );
}

#[test]
fn connection_lost_of_a_missing_device_changes_nothing() {
    let mut manager = DeviceManager::new(table(), false);
    manager.connection_lost(0);
    assert_eq!(manager.handle_event(found("Massage Demo", "A", 1)), vec![added(0, "Aneros Vivi")]);
    manager.connection_lost(3);
    assert!(manager.device(0).expect("device 0").connected());
    assert_eq!(manager.device_disconnected(0), vec![ServerEvent::DeviceRemoved { index: 0 }]);
    manager.connection_lost(0);
    assert!(manager.device(0).is_none());
}

#[test]
fn raw_permission_of_the_session_reaches_every_device() {
    let mut manager = DeviceManager::new(table(), true);
    let events = manager.handle_event(found("Je Joue", "A", 1));
    let mut messages = vibrator_messages();
    messages.extend([
        ButtplugDeviceMessageType::RawWriteCmd,
        ButtplugDeviceMessageType::RawReadCmd,
        ButtplugDeviceMessageType::RawSubscribeCmd,
        ButtplugDeviceMessageType::RawUnsubscribeCmd,
    ]);
    assert_eq!(
        events,
        vec![ServerEvent::DeviceAdded {
            index: 0,
            name: "Je Joue Device (Raw Messages Allowed)".to_string(),
            device_messages: messages,
        }]
    );
    assert!(manager.device(0).expect("device 0").allow_raw());
}
