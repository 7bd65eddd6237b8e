use buttplug::device::configuration::{DeviceLayout, ProtocolDefinition};
use buttplug::device::dispatch::Dispatch;
use buttplug::device::hardware::{
    HardwareCommand, HardwareReadCmd, HardwareSubscribeCmd, HardwareUnsubscribeCmd,
    HardwareWriteCmd, TransportError,
};
use buttplug::device::protocol::ProtocolIdentifier;
use buttplug::device::server_device::{DeviceCommand, ServerDevice, Subcommand};
use buttplug::device::test_device::TestDevice;
use buttplug::errors::{ButtplugDeviceError, ProtocolFault};
use buttplug::message::{
    ActuatorType, ButtplugDeviceMessageType, Endpoint, SensorType, SensorUnsubscribeCmd,
};

fn definition(identifier: ProtocolIdentifier, layout: DeviceLayout) -> ProtocolDefinition {
    ProtocolDefinition {
        names: vec![],
        addresses: vec![],
        identifier,
        display_name: "Device".to_string(),
        layout,
    }
}

fn vibrators(n: usize) -> DeviceLayout {
    DeviceLayout { scalar: vec![ActuatorType::Vibrate; n], rotate: 0, linear: 0, sensors: vec![] }
}

fn device(identifier: ProtocolIdentifier, allow_raw: bool) -> ServerDevice<()> {
    ServerDevice::new(&definition(identifier, vibrators(2)), allow_raw, ())
}

fn vibrate(entries: &[(u32, u32)]) -> DeviceCommand {
    DeviceCommand::Scalar(
        entries
            .iter()
            .map(|(index, scalar)| Subcommand { index: *index, value: (ActuatorType::Vibrate, *scalar) })
            .collect(),
    )
}

fn write(data: Vec<u8>) -> HardwareCommand {
    HardwareCommand::Write(HardwareWriteCmd::new(Endpoint::Tx, data, false))
}

/// A transport that takes a number of commands and fails from then on.
struct Flaky {
    left: usize,
    taken: Vec<HardwareCommand>,
}

impl Flaky {
    fn perform(&mut self, command: &HardwareCommand) -> Result<(), TransportError> {
        if self.left == 0 {
            return Err(TransportError {});
        }
        self.left -= 1;
        self.taken.push(command.clone());
        Ok(())
    }

    fn run(&mut self, device: &ServerDevice<()>, command: &DeviceCommand) -> Result<(), ButtplugDeviceError> {
        let mut dispatch = Dispatch::new(device, command);
        loop {
            let outcome = match dispatch.pending() {
                Some(command) => self.perform(command),
                None => break,
            };
            dispatch.report(outcome);
        }
        dispatch.result().expect("a dispatch without a pending command is over")
    }
}

#[test]
fn bound_device_is_connected_and_named() {
    let plain = device(ProtocolIdentifier::Aneros, false);
    assert_eq!(plain.name(), "Device");
    assert!(plain.connected());
    assert!(!plain.allow_raw());
    let raw = device(ProtocolIdentifier::Aneros, true);
    assert_eq!(raw.name(), "Device (Raw Messages Allowed)");
    assert!(raw.allow_raw());
    assert!(raw.supports(ButtplugDeviceMessageType::RawWriteCmd));
    assert!(!plain.supports(ButtplugDeviceMessageType::RawWriteCmd));
    assert!(plain.supports(ButtplugDeviceMessageType::ScalarCmd));
    assert!(!plain.supports(ButtplugDeviceMessageType::LinearCmd));
}

#[test]
fn connection_lost_changes_the_flag_only() {
    let mut d = device(ProtocolIdentifier::JeJoue, false);
    d.connection_lost();
    assert!(!d.connected());
    assert_eq!(d.name(), "Device");
    assert_eq!(d.translate(&vibrate(&[(0, 3)])), Ok(vec![write(vec![2, 3])]));
}

#[test]
fn command_kinds() {
    assert_eq!(vibrate(&[]).message_type(), ButtplugDeviceMessageType::ScalarCmd);
    assert_eq!(DeviceCommand::Rotate(vec![]).message_type(), ButtplugDeviceMessageType::RotateCmd);
    assert_eq!(DeviceCommand::Linear(vec![]).message_type(), ButtplugDeviceMessageType::LinearCmd);
    assert_eq!(DeviceCommand::StopDevice.message_type(), ButtplugDeviceMessageType::StopDeviceCmd);
    assert_eq!(
        DeviceCommand::SensorRead { sensor_index: 0, sensor_type: SensorType::Battery }
            .message_type(),
        ButtplugDeviceMessageType::SensorReadCmd
    );
    assert_eq!(
        DeviceCommand::SensorSubscribe { sensor_index: 0, sensor_type: SensorType::Battery }
            .message_type(),
        ButtplugDeviceMessageType::SensorSubscribeCmd
    );
    assert_eq!(
        DeviceCommand::SensorUnsubscribe(SensorUnsubscribeCmd::new(0, 0, SensorType::Battery))
            .message_type(),
        ButtplugDeviceMessageType::SensorUnsubscribeCmd
    );
    assert_eq!(
        DeviceCommand::RawWrite { endpoint: Endpoint::Tx, data: vec![], write_with_response: false }
            .message_type(),
        ButtplugDeviceMessageType::RawWriteCmd
    );
    assert_eq!(
        DeviceCommand::RawRead { endpoint: Endpoint::Tx, expected_length: 1, timeout: 1 }
            .message_type(),
        ButtplugDeviceMessageType::RawReadCmd
    );
    assert_eq!(
        DeviceCommand::RawSubscribe { endpoint: Endpoint::Tx }.message_type(),
        ButtplugDeviceMessageType::RawSubscribeCmd
    );
    assert_eq!(
        DeviceCommand::RawUnsubscribe { endpoint: Endpoint::Tx }.message_type(),
        ButtplugDeviceMessageType::RawUnsubscribeCmd
    );
}

#[test]
fn scalar_command_is_laid_out_by_actuator() {
    let je_joue = device(ProtocolIdentifier::JeJoue, false);
    assert_eq!(je_joue.translate(&vibrate(&[(0, 3)])), Ok(vec![write(vec![2, 3])]));
    assert_eq!(je_joue.translate(&vibrate(&[(1, 5)])), Ok(vec![write(vec![3, 5])]));
    assert_eq!(je_joue.translate(&vibrate(&[(1, 5), (0, 1)])), Ok(vec![write(vec![1, 1])]));
    assert_eq!(je_joue.translate(&vibrate(&[])), Ok(vec![write(vec![1, 0])]));
    // The last subcommand for an actuator is the one that counts.
    assert_eq!(je_joue.translate(&vibrate(&[(0, 9), (0, 0), (1, 4)])), Ok(vec![write(vec![3, 4])]));
    let aneros = device(ProtocolIdentifier::Aneros, false);
    assert_eq!(
        aneros.translate(&vibrate(&[(1, 5), (0, 1)])),
        Ok(vec![write(vec![0xF1, 1]), write(vec![0xF2, 5])])
    );
    assert_eq!(aneros.translate(&vibrate(&[(1, 5)])), Ok(vec![write(vec![0xF2, 5])]));
}

#[test]
fn undeclared_actuator_is_an_error() {
    let expected = Err(ButtplugDeviceError::MessageNotSupported(ButtplugDeviceMessageType::ScalarCmd));
    for identifier in [ProtocolIdentifier::Aneros, ProtocolIdentifier::JeJoue] {
        let d = device(identifier, true);
        assert_eq!(d.translate(&vibrate(&[(2, 1)])), expected);
        assert_eq!(d.translate(&vibrate(&[(0, 1), (u32::MAX, 1)])), expected);
        assert_eq!(d.translate(&vibrate(&[(7, 1), (0, 1)])), expected);
        assert_eq!(TestDevice::record(&d, &vibrate(&[(2, 1)])), expected);
    }
}

#[test]
fn handler_errors_come_back_from_the_device() {
    let d = device(ProtocolIdentifier::Aneros, false);
    assert_eq!(
        d.translate(&vibrate(&[(1, 256)])),
        Err(ButtplugDeviceError::ProtocolSpecificError(ProtocolFault::Magnitude))
    );
    let odd = ServerDevice::new(&definition(ProtocolIdentifier::JeJoue, vibrators(1)), false, ());
    assert_eq!(
        odd.translate(&vibrate(&[(0, 1)])),
        Err(ButtplugDeviceError::ProtocolSpecificError(ProtocolFault::ActuatorCount))
    );
}

#[test]
fn commands_without_hardware_for_them_are_not_supported() {
    let d = device(ProtocolIdentifier::Aneros, true);
    let cases = [
        (DeviceCommand::Rotate(vec![Subcommand { index: 0, value: (1, true) }]), ButtplugDeviceMessageType::RotateCmd),
        (DeviceCommand::Linear(vec![Subcommand { index: 0, value: (100, 1) }]), ButtplugDeviceMessageType::LinearCmd),
        (
            DeviceCommand::SensorRead { sensor_index: 0, sensor_type: SensorType::Battery },
            ButtplugDeviceMessageType::SensorReadCmd,
        ),
        (
            DeviceCommand::SensorSubscribe { sensor_index: 0, sensor_type: SensorType::Battery },
            ButtplugDeviceMessageType::SensorSubscribeCmd,
        ),
        (
            DeviceCommand::SensorUnsubscribe(SensorUnsubscribeCmd::new(0, 0, SensorType::Battery)),
            ButtplugDeviceMessageType::SensorUnsubscribeCmd,
        ),
    ];
    for (command, kind) in cases.iter() {
        assert_eq!(d.translate(command), Err(ButtplugDeviceError::MessageNotSupported(*kind)));
    }
    let nothing = ServerDevice::new(&definition(ProtocolIdentifier::Aneros, vibrators(0)), false, ());
    assert_eq!(
        nothing.translate(&vibrate(&[])),
        Err(ButtplugDeviceError::MessageNotSupported(ButtplugDeviceMessageType::ScalarCmd))
    );
    assert_eq!(nothing.translate(&DeviceCommand::StopDevice), Ok(vec![]));
}

#[test]
fn no_family_drives_what_the_layout_declares_beyond_vibration() {
    let layout = DeviceLayout {
        scalar: vec![ActuatorType::Vibrate],
        rotate: 1,
        linear: 1,
        sensors: vec![SensorType::Battery],
    };
    let d = ServerDevice::new(&definition(ProtocolIdentifier::Aneros, layout), false, ());
    assert_eq!(
        d.translate(&DeviceCommand::Rotate(vec![Subcommand { index: 0, value: (1, true) }])),
        Err(ButtplugDeviceError::MessageNotSupported(ButtplugDeviceMessageType::RotateCmd))
    );
    assert_eq!(
        d.translate(&DeviceCommand::Rotate(vec![Subcommand { index: 1, value: (1, true) }])),
        Err(ButtplugDeviceError::MessageNotSupported(ButtplugDeviceMessageType::RotateCmd))
    );
    assert_eq!(
        d.translate(&DeviceCommand::Linear(vec![Subcommand { index: 0, value: (1, 1) }])),
        Err(ButtplugDeviceError::MessageNotSupported(ButtplugDeviceMessageType::LinearCmd))
    );
    assert_eq!(
        d.translate(&DeviceCommand::SensorRead { sensor_index: 0, sensor_type: SensorType::Battery }),
        Err(ButtplugDeviceError::MessageNotSupported(ButtplugDeviceMessageType::SensorReadCmd))
    );
    assert_eq!(
        d.translate(&DeviceCommand::SensorRead { sensor_index: 1, sensor_type: SensorType::Battery }),
        Err(ButtplugDeviceError::MessageNotSupported(ButtplugDeviceMessageType::SensorReadCmd))
    );
}

#[test]
fn stop_goes_to_the_handler() {
    assert_eq!(
        device(ProtocolIdentifier::JeJoue, false).translate(&DeviceCommand::StopDevice),
        Ok(vec![write(vec![1, 0])])
    );
    assert_eq!(
        device(ProtocolIdentifier::Aneros, false).translate(&DeviceCommand::StopDevice),
        Ok(vec![write(vec![0xF1, 0]), write(vec![0xF2, 0])])
    );
}

#[test]
fn raw_commands_need_the_permission_of_the_session() {
    let commands = [
        DeviceCommand::RawWrite { endpoint: Endpoint::Tx, data: vec![1, 2], write_with_response: true },
        DeviceCommand::RawRead { endpoint: Endpoint::Rx, expected_length: 2, timeout: 100 },
        DeviceCommand::RawSubscribe { endpoint: Endpoint::Rx },
        DeviceCommand::RawUnsubscribe { endpoint: Endpoint::Rx },
    ];
    let refused = device(ProtocolIdentifier::JeJoue, false);
    for command in commands.iter() {
        assert_eq!(
            refused.translate(command),
            Err(ButtplugDeviceError::MessageNotSupported(command.message_type()))
        );
        let mut transport = TestDevice::new();
        assert_eq!(
            transport.run(&refused, command),
            Err(ButtplugDeviceError::MessageNotSupported(command.message_type()))
        );
        assert!(transport.received().is_empty());
    }
    let permitted = device(ProtocolIdentifier::JeJoue, true);
    assert_eq!(
        permitted.translate(&commands[0]),
        Ok(vec![HardwareCommand::Write(HardwareWriteCmd::new(Endpoint::Tx, vec![1, 2], true))])
    );
    assert_eq!(
        permitted.translate(&commands[1]),
        Ok(vec![HardwareCommand::Read(HardwareReadCmd::new(Endpoint::Rx, 2, 100))])
    );
    assert_eq!(
        permitted.translate(&commands[2]),
        Ok(vec![HardwareCommand::Subscribe(HardwareSubscribeCmd::new(Endpoint::Rx))])
    );
    assert_eq!(
        permitted.translate(&commands[3]),
        Ok(vec![HardwareCommand::Unsubscribe(HardwareUnsubscribeCmd::new(Endpoint::Rx))])
    );
}

#[test]
fn dispatch_hands_the_commands_to_the_transport_in_order() {
    let d = device(ProtocolIdentifier::Aneros, true);
    let mut transport = TestDevice::new();
    assert_eq!(transport.run(&d, &vibrate(&[(0, 1), (1, 2)])), Ok(()));
    assert_eq!(
        transport.run(
            &d,
            &DeviceCommand::RawRead { endpoint: Endpoint::Rx, expected_length: 1, timeout: 5 }
        ),
        Ok(())
    );
    assert_eq!(
        transport.received(),
        &vec![
            write(vec![0xF1, 1]),
            write(vec![0xF2, 2]),
            HardwareCommand::Read(HardwareReadCmd::new(Endpoint::Rx, 1, 5)),
        ]
    );
    assert_eq!(transport.next_received(), Some(write(vec![0xF1, 1])));
    assert_eq!(transport.next_received(), Some(write(vec![0xF2, 2])));
    assert_eq!(
        transport.next_received(),
        Some(HardwareCommand::Read(HardwareReadCmd::new(Endpoint::Rx, 1, 5)))
    );
    assert_eq!(transport.next_received(), None);
    assert!(transport.into_received().is_empty());
}

#[test]
fn dispatch_fails_fast_and_does_not_roll_back() {
    let d = device(ProtocolIdentifier::Aneros, false);
    let mut transport = Flaky { left: 1, taken: vec![] };
    assert_eq!(
        transport.run(&d, &vibrate(&[(0, 1), (1, 2)])),
        Err(ButtplugDeviceError::TransportError)
    );
    assert_eq!(transport.taken, vec![write(vec![0xF1, 1])]);
    let mut transport = Flaky { left: 0, taken: vec![] };
    assert_eq!(
        transport.run(&d, &vibrate(&[(0, 1), (1, 2)])),
        Err(ButtplugDeviceError::TransportError)
    );
    assert!(transport.taken.is_empty());
    let mut transport = Flaky { left: 2, taken: vec![] };
    assert_eq!(transport.run(&d, &vibrate(&[(0, 1), (1, 2)])), Ok(()));
    assert_eq!(transport.taken, vec![write(vec![0xF1, 1]), write(vec![0xF2, 2])]);
    // A command without hardware commands succeeds on a dead transport.
    let mut transport = Flaky { left: 0, taken: vec![] };
    assert_eq!(transport.run(&d, &vibrate(&[])), Ok(()));
}

#[test]
fn write_payload_survives_the_transport() {
    let d = device(ProtocolIdentifier::JeJoue, true);
    let commands = [
        vibrate(&[(0, 200), (1, 100)]),
        vibrate(&[(1, 255)]),
        DeviceCommand::StopDevice,
        DeviceCommand::RawWrite {
            endpoint: Endpoint::TxMode,
            data: vec![0, 255, 1, 254, 0],
            write_with_response: true,
        },
        DeviceCommand::RawWrite { endpoint: Endpoint::Tx, data: vec![], write_with_response: false },
    ];
    for command in commands.iter() {
        let produced = d.translate(command).expect("the handler translates");
        assert_eq!(TestDevice::record(&d, command), Ok(produced.clone()));
        let mut transport = TestDevice::default();
        assert_eq!(transport.run(&d, command), Ok(()));
        let received = transport.next_received().expect("one command");
        match (&received, &produced[0]) {
            (HardwareCommand::Write(got), HardwareCommand::Write(sent)) => {
                assert_eq!(got.data(), sent.data());
                assert_eq!(got.endpoint(), sent.endpoint());
                assert_eq!(got.write_with_response(), sent.write_with_response());
            }
            _ => panic!("not a write: {:?}", received),
        }
    }
}

#[test]
fn dispatch_asks_for_one_command_at_a_time() {
    let d = device(ProtocolIdentifier::Aneros, false);
    let mut dispatch = Dispatch::new(&d, &vibrate(&[(0, 1), (1, 2)]));
    assert_eq!(dispatch.result(), None);
    assert_eq!(dispatch.performed(), 0);
    assert_eq!(dispatch.pending(), Some(&write(vec![0xF1, 1])));
    // Asking again changes nothing.
    assert_eq!(dispatch.pending(), Some(&write(vec![0xF1, 1])));
    dispatch.report(Ok(()));
    assert_eq!(dispatch.performed(), 1);
    assert_eq!(dispatch.pending(), Some(&write(vec![0xF2, 2])));
    assert_eq!(dispatch.result(), None);
    dispatch.report(Ok(()));
    assert_eq!(dispatch.pending(), None);
    assert_eq!(dispatch.result(), Some(Ok(())));
    // A report after the end changes nothing.
    dispatch.report(Err(TransportError {}));
    assert_eq!(dispatch.result(), Some(Ok(())));
    assert_eq!(dispatch.performed(), 2);
}

#[test]
fn failed_dispatch_is_not_tried_again() {
    let d = device(ProtocolIdentifier::Aneros, false);
    let mut dispatch = Dispatch::new(&d, &vibrate(&[(0, 1), (1, 2)]));
    dispatch.report(Ok(()));
    dispatch.report(Err(TransportError {}));
    assert_eq!(dispatch.pending(), None);
    assert_eq!(dispatch.result(), Some(Err(ButtplugDeviceError::TransportError)));
    dispatch.report(Ok(()));
    assert_eq!(dispatch.pending(), None);
    assert_eq!(dispatch.result(), Some(Err(ButtplugDeviceError::TransportError)));
    assert_eq!(dispatch.performed(), 1);
}

#[test]
fn dispatch_of_an_untranslatable_command_is_over_at_once() {
    let d = device(ProtocolIdentifier::Aneros, false);
    let mut dispatch = Dispatch::new(&d, &vibrate(&[(5, 1)]));
    let expected = Some(Err(ButtplugDeviceError::MessageNotSupported(
        ButtplugDeviceMessageType::ScalarCmd,
    )));
    assert_eq!(dispatch.pending(), None);
    assert_eq!(dispatch.result(), expected);
    dispatch.report(Ok(()));
    assert_eq!(dispatch.result(), expected);
    assert_eq!(dispatch.performed(), 0);
}

#[test]
fn test_transport_takes_every_kind_of_command() {
    let mut transport = TestDevice::new();
    let commands = vec![
        write(vec![1]),
        HardwareCommand::Read(HardwareReadCmd::new(Endpoint::Rx, 4, 10)),
        HardwareCommand::Subscribe(HardwareSubscribeCmd::new(Endpoint::Rx)),
        HardwareCommand::Unsubscribe(HardwareUnsubscribeCmd::new(Endpoint::Rx)),
    ];
    for command in commands.iter() {
        assert_eq!(transport.perform(command), Ok(()));
    }
    assert_eq!(transport.received(), &commands);
}
