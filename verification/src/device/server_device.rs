//! A connected device: a handler bound to the layout of one piece of
//! hardware, and the translation of abstract commands for it.

use crate::device::configuration::{DeviceLayout, DeviceLayoutModel, ProtocolDefinition};
use crate::device::hardware::{HardwareCommand, HardwareCommandModel};
use crate::device::protocol::{all_address, translated, unsupported, ProtocolHandler};
use crate::errors::ButtplugDeviceError;
use crate::message::{
    ActuatorType, ButtplugDeviceMessageType, Endpoint, SensorType, SensorUnsubscribeCmd,
};
use vstd::prelude::*;

verus! {

/// The part of a command that is for one actuator.
#[derive(Debug, PartialEq, Eq)]
pub struct Subcommand<T> {
    /// The index of the actuator among those of its kind.
    pub index: u32,
    /// What the actuator is to do.
    pub value: T,
}

impl<T: Copy> Clone for Subcommand<T> {
    fn clone(&self) -> (r: Self)
        ensures
            r == *self,
    {
        Subcommand { index: self.index, value: self.value }
    }
}

impl<T: Copy> Copy for Subcommand<T> {

}

/// An abstract command for a device, parsed and in device units.
#[derive(Debug, PartialEq, Eq)]
pub enum DeviceCommand {
    /// Sets scalar actuators, each to a magnitude.
    Scalar(Vec<Subcommand<(ActuatorType, u32)>>),
    /// Sets rotating actuators, each to a speed and a direction (clockwise
    /// if `true`).
    Rotate(Vec<Subcommand<(u32, bool)>>),
    /// Moves linear actuators, each within a duration to a position.
    Linear(Vec<Subcommand<(u32, u32)>>),
    /// Reads a sensor once.
    SensorRead { sensor_index: u32, sensor_type: SensorType },
    /// Subscribes to a sensor.
    SensorSubscribe { sensor_index: u32, sensor_type: SensorType },
    /// Ends the subscription to a sensor.
    SensorUnsubscribe(SensorUnsubscribeCmd),
    /// Brings the device to rest.
    StopDevice,
    /// Writes bytes to an endpoint, bypassing the handler's encoding.
    RawWrite { endpoint: Endpoint, data: Vec<u8>, write_with_response: bool },
    /// Reads bytes from an endpoint.
    RawRead { endpoint: Endpoint, expected_length: u32, timeout: u32 },
    /// Subscribes to an endpoint.
    RawSubscribe { endpoint: Endpoint },
    /// Ends the subscription to an endpoint.
    RawUnsubscribe { endpoint: Endpoint },
}

impl DeviceCommand {
    /// The kind of the command.
    pub open spec fn kind(&self) -> ButtplugDeviceMessageType {
        match self {
            DeviceCommand::Scalar(_) => ButtplugDeviceMessageType::ScalarCmd,
            DeviceCommand::Rotate(_) => ButtplugDeviceMessageType::RotateCmd,
            DeviceCommand::Linear(_) => ButtplugDeviceMessageType::LinearCmd,
            DeviceCommand::SensorRead { .. } => ButtplugDeviceMessageType::SensorReadCmd,
            DeviceCommand::SensorSubscribe { .. } => ButtplugDeviceMessageType::SensorSubscribeCmd,
            DeviceCommand::SensorUnsubscribe(_) => ButtplugDeviceMessageType::SensorUnsubscribeCmd,
            DeviceCommand::StopDevice => ButtplugDeviceMessageType::StopDeviceCmd,
            DeviceCommand::RawWrite { .. } => ButtplugDeviceMessageType::RawWriteCmd,
            DeviceCommand::RawRead { .. } => ButtplugDeviceMessageType::RawReadCmd,
            DeviceCommand::RawSubscribe { .. } => ButtplugDeviceMessageType::RawSubscribeCmd,
            DeviceCommand::RawUnsubscribe { .. } => ButtplugDeviceMessageType::RawUnsubscribeCmd,
        }
    }

    /// Whether the command bypasses the handler's encoding.
    pub open spec fn is_raw(&self) -> bool {
        self is RawWrite || self is RawRead || self is RawSubscribe || self is RawUnsubscribe
    }

    /// The kind of the command.
    pub fn message_type(&self) -> (r: ButtplugDeviceMessageType)
        ensures
            r == self.kind(),
    {
        match self {
            DeviceCommand::Scalar(_) => ButtplugDeviceMessageType::ScalarCmd,
            DeviceCommand::Rotate(_) => ButtplugDeviceMessageType::RotateCmd,
            DeviceCommand::Linear(_) => ButtplugDeviceMessageType::LinearCmd,
            DeviceCommand::SensorRead { .. } => ButtplugDeviceMessageType::SensorReadCmd,
            DeviceCommand::SensorSubscribe { .. } => ButtplugDeviceMessageType::SensorSubscribeCmd,
            DeviceCommand::SensorUnsubscribe(_) => ButtplugDeviceMessageType::SensorUnsubscribeCmd,
            DeviceCommand::StopDevice => ButtplugDeviceMessageType::StopDeviceCmd,
            DeviceCommand::RawWrite { .. } => ButtplugDeviceMessageType::RawWriteCmd,
            DeviceCommand::RawRead { .. } => ButtplugDeviceMessageType::RawReadCmd,
            DeviceCommand::RawSubscribe { .. } => ButtplugDeviceMessageType::RawSubscribeCmd,
            DeviceCommand::RawUnsubscribe { .. } => ButtplugDeviceMessageType::RawUnsubscribeCmd,
        }
    }
}

/// Whether every subcommand addresses one of `count` actuators.
pub open spec fn in_range<T>(entries: Seq<Subcommand<T>>, count: nat) -> bool {
    forall|k: int| 0 <= k < entries.len() ==> (#[trigger] entries[k]).index < count
}

/// The subcommands laid out by actuator: entry `i` holds what the last
/// subcommand for actuator `i` asks, and nothing where there is none.
pub open spec fn placed<T>(entries: Seq<Subcommand<T>>, count: nat) -> Seq<Option<T>>
    decreases entries.len(),
{
    if entries.len() == 0 {
        Seq::new(count, |i: int| None)
    } else {
        let before = placed(entries.drop_last(), count);
        let entry = entries.last();
        if entry.index < count {
            before.update(entry.index as int, Some(entry.value))
        } else {
            before
        }
    }
}

/// Lays subcommands out by actuator, unless one of them addresses an
/// actuator that does not exist.
fn place<T: Copy>(entries: &Vec<Subcommand<T>>, count: usize) -> (r: Option<Vec<Option<T>>>)
    ensures
        match r {
            Some(slots) => in_range(entries@, count as nat) && slots@ == placed(
                entries@,
                count as nat,
            ),
            None => !in_range(entries@, count as nat),
        },
{
    let mut slots: Vec<Option<T>> = Vec::new();
    let mut i: usize = 0;
    while i < count
        invariant
            i <= count,
            slots@ == Seq::new(i as nat, |k: int| None::<T>),
        decreases count - i,
    {
        slots.push(None);
        assert(slots@ =~= Seq::new((i + 1) as nat, |k: int| None::<T>));
        i += 1;
    }
    assert(entries@.take(0) =~= Seq::empty());
    let mut k: usize = 0;
    while k < entries.len()
        invariant
            k <= entries@.len(),
            slots@.len() == count,
            in_range(entries@.take(k as int), count as nat),
            slots@ == placed(entries@.take(k as int), count as nat),
        decreases entries@.len() - k,
    {
        let index: usize = entries[k].index as usize;
        if index >= count {
            return None;
        }
        slots[index] = Some(entries[k].value);
        proof {
            assert(entries@.take(k + 1).drop_last() =~= entries@.take(k as int));
            assert forall|j: int| 0 <= j < k + 1 implies (#[trigger] entries@.take(k + 1)[j]).index
                < count by {
                if j < k {
                    assert(entries@.take(k as int)[j].index < count);
                }
            }
        }
        k += 1;
    }
    assert(entries@.take(k as int) =~= entries@);
    Some(slots)
}

/// What is appended to the name of a device that takes raw commands.
pub open spec fn raw_marker() -> Seq<char> {
    " (Raw Messages Allowed)"@
}

/// The name under which a device is announced.
pub open spec fn announced_name(display_name: Seq<char>, allow_raw: bool) -> Seq<char> {
    if allow_raw {
        display_name + raw_marker()
    } else {
        display_name
    }
}

/// A connected device.
#[derive(Debug)]
pub struct ServerDevice<H> {
    name: String,
    handler: ProtocolHandler,
    layout: DeviceLayout,
    allow_raw: bool,
    connected: bool,
    handle: H,
}

/// What a `ServerDevice` holds.
pub ghost struct ServerDeviceModel<H> {
    /// The name under which the device is announced.
    pub name: Seq<char>,
    /// The handler bound to the device.
    pub handler: ProtocolHandler,
    /// What the device is made of.
    pub layout: DeviceLayoutModel,
    /// Whether the device takes raw commands.
    pub allow_raw: bool,
    /// Whether the transport still holds the connection.
    pub connected: bool,
    /// The transport's handle for the connection.
    pub handle: H,
}

impl<H> View for ServerDevice<H> {
    type V = ServerDeviceModel<H>;

    closed spec fn view(&self) -> ServerDeviceModel<H> {
        ServerDeviceModel {
            name: self.name@,
            handler: self.handler,
            layout: self.layout@,
            allow_raw: self.allow_raw,
            connected: self.connected,
            handle: self.handle,
        }
    }
}

impl<H> ServerDeviceModel<H> {
    /// The device that comes of binding a discovered piece of hardware to
    /// an entry of the configuration table: connected, driven by a fresh
    /// handler of the entry's family, and made as the entry says.
    pub open spec fn bound(definition: &ProtocolDefinition, allow_raw: bool, handle: H) -> Self {
        ServerDeviceModel {
            name: announced_name(definition.display_name@, allow_raw),
            handler: ProtocolHandler::of(definition.identifier),
            layout: definition.layout@,
            allow_raw,
            connected: true,
            handle,
        }
    }

    /// The kinds of command that the device takes.
    pub open spec fn messages(self) -> Seq<ButtplugDeviceMessageType> {
        self.layout.messages(self.allow_raw)
    }

    /// The hardware commands that an abstract command stands for on this
    /// device, or the error that it ends in.
    ///
    /// A command of a kind that the device does not take is rejected, and
    /// so is one that addresses an actuator or a sensor that the device
    /// does not have. Scalar and stop commands go to the handler. Raw
    /// commands pass through unchanged. No family drives rotating or linear
    /// actuators or sensors, so those commands are rejected.
    pub open spec fn translation(self, command: &DeviceCommand) -> Result<
        Seq<HardwareCommandModel>,
        ButtplugDeviceError,
    > {
        if !self.layout.supports(command.kind(), self.allow_raw) {
            unsupported(command.kind())
        } else {
            match command {
                DeviceCommand::Scalar(entries) => if in_range(entries@, self.layout.scalar.len()) {
                    self.handler.scalar(placed(entries@, self.layout.scalar.len()))
                } else {
                    unsupported(command.kind())
                },
                DeviceCommand::StopDevice => self.handler.stop(self.layout.scalar),
                DeviceCommand::RawWrite { endpoint, data, write_with_response } => Ok(
                    seq![
                        HardwareCommandModel::Write {
                            endpoint: *endpoint,
                            data: data@,
                            write_with_response: *write_with_response,
                        },
                    ],
                ),
                DeviceCommand::RawRead { endpoint, expected_length, timeout } => Ok(
                    seq![
                        HardwareCommandModel::Read {
                            endpoint: *endpoint,
                            length: *expected_length,
                            timeout_ms: *timeout,
                        },
                    ],
                ),
                DeviceCommand::RawSubscribe { endpoint } => Ok(
                    seq![HardwareCommandModel::Subscribe { endpoint: *endpoint }],
                ),
                DeviceCommand::RawUnsubscribe { endpoint } => Ok(
                    seq![HardwareCommandModel::Unsubscribe { endpoint: *endpoint }],
                ),
                _ => unsupported(command.kind()),
            }
        }
    }

    /// A device that does not take raw commands rejects every kind of raw
    /// command with `MessageNotSupported`.
    pub proof fn lemma_raw_commands_need_permission(self, command: &DeviceCommand)
        requires
            command.is_raw(),
            !self.allow_raw,
        ensures
            self.translation(command) == Err::<Seq<HardwareCommandModel>, ButtplugDeviceError>(
                ButtplugDeviceError::MessageNotSupported(command.kind()),
            ),
    {
    }

    /// Whatever a command that is not raw is translated into goes to the
    /// `Tx` endpoint. Only a raw command reaches another endpoint, the one
    /// that it names.
    pub proof fn lemma_translation_addresses_tx(self, command: &DeviceCommand)
        requires
            !command.is_raw(),
        ensures
            all_address(self.translation(command), Endpoint::Tx),
    {
        match command {
            DeviceCommand::Scalar(entries) => {
                self.handler.lemma_scalar_addresses_tx(
                    placed(entries@, self.layout.scalar.len()),
                );
            },
            DeviceCommand::StopDevice => {
                self.handler.lemma_stop_addresses_tx(self.layout.scalar);
            },
            _ => {},
        }
    }

    /// A scalar command that addresses an actuator beyond those that the
    /// device declares ends in an error: no hardware command comes of it.
    pub proof fn lemma_undeclared_actuator_is_rejected(
        self,
        entries: Vec<Subcommand<(ActuatorType, u32)>>,
        k: int,
    )
        requires
            0 <= k < entries@.len(),
            entries@[k].index >= self.layout.scalar.len(),
        ensures
            self.translation(&DeviceCommand::Scalar(entries)) == Err::<
                Seq<HardwareCommandModel>,
                ButtplugDeviceError,
            >(ButtplugDeviceError::MessageNotSupported(ButtplugDeviceMessageType::ScalarCmd)),
    {
    }
}

impl<H> ServerDevice<H> {
    /// Binds a discovered piece of hardware to an entry of the
    /// configuration table.
    pub fn new(definition: &ProtocolDefinition, allow_raw: bool, handle: H) -> (r: Self)
        ensures
            r@ == ServerDeviceModel::bound(definition, allow_raw, handle),
    {
        let mut name = definition.display_name.clone();
        if allow_raw {
            name.append(" (Raw Messages Allowed)");
        }
        ServerDevice {
            name,
            handler: ProtocolHandler::new(definition.identifier),
            layout: definition.layout.clone(),
            allow_raw,
            connected: true,
            handle,
        }
    }

    /// The name under which the device is announced.
    pub fn name(&self) -> (r: &String)
        ensures
            r@ == self@.name,
    {
        &self.name
    }

    /// The handler bound to the device.
    pub fn handler(&self) -> (r: &ProtocolHandler)
        ensures
            *r == self@.handler,
    {
        &self.handler
    }

    /// What the device is made of.
    pub fn layout(&self) -> (r: &DeviceLayout)
        ensures
            r@ == self@.layout,
    {
        &self.layout
    }

    /// Whether the device takes raw commands.
    pub fn allow_raw(&self) -> (r: bool)
        ensures
            r == self@.allow_raw,
    {
        self.allow_raw
    }

    /// Whether the transport still holds the connection.
    pub fn connected(&self) -> (r: bool)
        ensures
            r == self@.connected,
    {
        self.connected
    }

    /// The transport's handle for the connection.
    pub fn handle(&self) -> (r: &H)
        ensures
            *r == self@.handle,
    {
        &self.handle
    }

    /// Records that the transport has lost the connection.
    pub fn connection_lost(&mut self)
        ensures
            final(self)@ == (ServerDeviceModel { connected: false, ..old(self)@ }),
    {
        self.connected = false;
    }

    /// The kinds of command that the device takes.
    pub fn device_messages(&self) -> (r: Vec<ButtplugDeviceMessageType>)
        ensures
            r@ == self@.messages(),
    {
        self.layout.messages(self.allow_raw)
    }

    /// Whether the device takes commands of the given kind.
    pub fn supports(&self, kind: ButtplugDeviceMessageType) -> (r: bool)
        ensures
            r == self@.layout.supports(kind, self@.allow_raw),
    {
        self.layout.supports(kind, self.allow_raw)
    }

    /// Translates an abstract command into the hardware commands that
    /// carry it out, in the order in which the transport is to execute
    /// them.
    pub fn translate(&self, command: &DeviceCommand) -> (r: Result<
        Vec<HardwareCommand>,
        ButtplugDeviceError,
    >)
        ensures
            translated(r) == self@.translation(command),
    {
        let kind = command.message_type();
        if !self.layout.supports(kind, self.allow_raw) {
            return Err(ButtplugDeviceError::MessageNotSupported(kind));
        }
        match command {
            DeviceCommand::Scalar(entries) => match place(entries, self.layout.scalar.len()) {
                Some(slots) => self.handler.handle_scalar_cmd(slots.as_slice()),
                None => Err(ButtplugDeviceError::MessageNotSupported(kind)),
            },
            DeviceCommand::Rotate(entries) => match place(entries, self.layout.rotate as usize) {
                Some(slots) => self.handler.handle_rotate_cmd(slots.as_slice()),
                None => Err(ButtplugDeviceError::MessageNotSupported(kind)),
            },
            DeviceCommand::Linear(entries) => match place(entries, self.layout.linear as usize) {
                Some(slots) => self.handler.handle_linear_cmd(slots.as_slice()),
                None => Err(ButtplugDeviceError::MessageNotSupported(kind)),
            },
            DeviceCommand::SensorRead { sensor_index, sensor_type } => {
                if (*sensor_index as usize) < self.layout.sensors.len() {
                    self.handler.handle_sensor_read_cmd(*sensor_index, *sensor_type)
                } else {
                    Err(ButtplugDeviceError::MessageNotSupported(kind))
                }
            },
            DeviceCommand::SensorSubscribe { sensor_index, sensor_type } => {
                if (*sensor_index as usize) < self.layout.sensors.len() {
                    self.handler.handle_sensor_subscribe_cmd(*sensor_index, *sensor_type)
                } else {
                    Err(ButtplugDeviceError::MessageNotSupported(kind))
                }
            },
            DeviceCommand::SensorUnsubscribe(message) => {
                if (*message.sensor_index() as usize) < self.layout.sensors.len() {
                    self.handler.handle_sensor_unsubscribe_cmd(
                        *message.sensor_index(),
                        *message.sensor_type(),
                    )
                } else {
                    Err(ButtplugDeviceError::MessageNotSupported(kind))
                }
            },
            DeviceCommand::StopDevice => self.handler.handle_stop_device_cmd(
                self.layout.scalar.as_slice(),
            ),
            DeviceCommand::RawWrite { endpoint, data, write_with_response } => {
                self.handler.handle_raw_write_cmd(*endpoint, data.clone(), *write_with_response)
            },
            DeviceCommand::RawRead { endpoint, expected_length, timeout } => {
                self.handler.handle_raw_read_cmd(*endpoint, *expected_length, *timeout)
            },
            DeviceCommand::RawSubscribe { endpoint } => self.handler.handle_raw_subscribe_cmd(
                *endpoint,
            ),
            DeviceCommand::RawUnsubscribe { endpoint } => self.handler.handle_raw_unsubscribe_cmd(
                *endpoint,
            ),
        }
    }
}

} // verus!
