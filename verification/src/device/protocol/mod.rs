//! Protocol handlers: the translators from abstract commands to the hardware
//! commands of one device family.
//!
//! A handler performs no I/O. It returns the commands that the transport is
//! to carry out, or a typed error. What a family does not implement falls
//! back to a rejection with `MessageNotSupported`.

pub mod aneros;
pub mod jejoue;

use crate::device::hardware::{
    command_models, HardwareCommand, HardwareCommandModel, HardwareReadCmd, HardwareSubscribeCmd,
    HardwareUnsubscribeCmd, HardwareWriteCmd,
};
use crate::device::protocol::aneros::Aneros;
use crate::device::protocol::jejoue::JeJoue;
use crate::errors::{ButtplugDeviceError, ProtocolFault};
use crate::message::{ActuatorType, ButtplugDeviceMessageType, Endpoint, SensorType};
use vstd::prelude::*;

verus! {

/// What a handler returns, with the commands replaced by their models.
pub open spec fn translated(r: Result<Vec<HardwareCommand>, ButtplugDeviceError>) -> Result<
    Seq<HardwareCommandModel>,
    ButtplugDeviceError,
> {
    match r {
        Ok(commands) => Ok(command_models(commands@)),
        Err(e) => Err(e),
    }
}

/// The rejection of a command of the given kind.
pub open spec fn unsupported(kind: ButtplugDeviceMessageType) -> Result<
    Seq<HardwareCommandModel>,
    ButtplugDeviceError,
> {
    Err(ButtplugDeviceError::MessageNotSupported(kind))
}

/// Whether every hardware command of a translation goes to `endpoint`. A
/// translation that ended in an error holds no command.
pub open spec fn all_address(
    translation: Result<Seq<HardwareCommandModel>, ButtplugDeviceError>,
    endpoint: Endpoint,
) -> bool {
    translation matches Ok(commands) ==> forall|i: int|
        0 <= i < commands.len() ==> (#[trigger] commands[i]).endpoint() == endpoint
}

/// The sequence that holds `command` and nothing else.
pub fn single_command(command: HardwareCommand) -> (r: Vec<HardwareCommand>)
    ensures
        command_models(r@) == seq![command@],
{
    let r = vec![command];
    assert(command_models(r@) =~= seq![command@]);
    r
}

/// Names a device family in the configuration table.
#[derive(Debug, Clone, Copy, PartialEq, Eq, Hash, Structural)]
pub enum ProtocolIdentifier {
    Aneros,
    JeJoue,
}

/// The handler bound to one device.
#[derive(Debug, Clone, Copy, PartialEq, Eq, Structural)]
pub enum ProtocolHandler {
    Aneros(Aneros),
    JeJoue(JeJoue),
}

impl ProtocolHandler {
    /// The most scalar actuators that a command can address: their indices
    /// are 32-bit.
    pub const MAX_ACTUATORS: usize = 0xFFFF_FFFF;

    /// The handler of the given family.
    pub open spec fn of(identifier: ProtocolIdentifier) -> ProtocolHandler {
        match identifier {
            ProtocolIdentifier::Aneros => ProtocolHandler::Aneros(Aneros {  }),
            ProtocolIdentifier::JeJoue => ProtocolHandler::JeJoue(JeJoue {  }),
        }
    }

    /// A fresh handler of the given family.
    pub fn new(identifier: ProtocolIdentifier) -> (r: Self)
        ensures
            r == Self::of(identifier),
    {
        match identifier {
            ProtocolIdentifier::Aneros => ProtocolHandler::Aneros(Aneros {  }),
            ProtocolIdentifier::JeJoue => ProtocolHandler::JeJoue(JeJoue {  }),
        }
    }

    /// The translation of a vibrate command for one actuator.
    pub open spec fn scalar_vibrate(self, index: u32, scalar: u32) -> Result<
        Seq<HardwareCommandModel>,
        ButtplugDeviceError,
    > {
        match self {
            ProtocolHandler::Aneros(_) => Aneros::scalar_vibrate(index, scalar),
            ProtocolHandler::JeJoue(_) => unsupported(ButtplugDeviceMessageType::ScalarCmd),
        }
    }

    /// The translation of a scalar command for one actuator, by its kind.
    /// Only vibration has a translation of its own.
    pub open spec fn scalar_actuator(self, index: u32, actuator: ActuatorType, scalar: u32) -> Result<
        Seq<HardwareCommandModel>,
        ButtplugDeviceError,
    > {
        match actuator {
            ActuatorType::Vibrate => self.scalar_vibrate(index, scalar),
            _ => unsupported(ButtplugDeviceMessageType::ScalarCmd),
        }
    }

    /// The translation of a scalar command actuator by actuator: the
    /// translations of the entries that are present, in the order of their
    /// indices, or the error of the first entry that is refused.
    pub open spec fn scalar_each(self, cmds: Seq<Option<(ActuatorType, u32)>>) -> Result<
        Seq<HardwareCommandModel>,
        ButtplugDeviceError,
    >
        decreases cmds.len(),
    {
        if cmds.len() == 0 {
            Ok(Seq::empty())
        } else {
            match self.scalar_each(cmds.drop_last()) {
                Err(e) => Err(e),
                Ok(before) => match cmds.last() {
                    None => Ok(before),
                    Some((actuator, scalar)) => match self.scalar_actuator(
                        (cmds.len() - 1) as u32,
                        actuator,
                        scalar,
                    ) {
                        Err(e) => Err(e),
                        Ok(commands) => Ok(before + commands),
                    },
                },
            }
        }
    }

    /// The translation of a scalar command. A family whose wire format
    /// combines its actuators translates the command as a whole; the others
    /// translate it actuator by actuator, and refuse a command with more
    /// entries than there are indices.
    pub open spec fn scalar(self, cmds: Seq<Option<(ActuatorType, u32)>>) -> Result<
        Seq<HardwareCommandModel>,
        ButtplugDeviceError,
    > {
        match self {
            ProtocolHandler::JeJoue(_) => JeJoue::scalar(cmds),
            ProtocolHandler::Aneros(_) => if cmds.len() > Self::MAX_ACTUATORS {
                Err(ButtplugDeviceError::ProtocolSpecificError(ProtocolFault::ActuatorCount))
            } else {
                self.scalar_each(cmds)
            },
        }
    }

    /// The scalar command that brings every one of `actuators` to rest.
    pub open spec fn at_rest(actuators: Seq<ActuatorType>) -> Seq<Option<(ActuatorType, u32)>> {
        Seq::new(actuators.len(), |i: int| Some((actuators[i], 0u32)))
    }

    /// The translation of a stop command for a device with the given scalar
    /// actuators: the scalar command that brings them all to rest, and
    /// nothing for a device without any.
    pub open spec fn stop(self, actuators: Seq<ActuatorType>) -> Result<
        Seq<HardwareCommandModel>,
        ButtplugDeviceError,
    > {
        if actuators.len() == 0 {
            Ok(Seq::empty())
        } else {
            self.scalar(Self::at_rest(actuators))
        }
    }

    /// What a scalar command is translated into goes to the `Tx` endpoint,
    /// the one endpoint that the families here write to.
    pub proof fn lemma_scalar_addresses_tx(self, cmds: Seq<Option<(ActuatorType, u32)>>)
        ensures
            all_address(self.scalar(cmds), Endpoint::Tx),
    {
        self.lemma_scalar_each_addresses_tx(cmds);
    }

    /// What a stop command is translated into goes to the `Tx` endpoint.
    pub proof fn lemma_stop_addresses_tx(self, actuators: Seq<ActuatorType>)
        ensures
            all_address(self.stop(actuators), Endpoint::Tx),
    {
        self.lemma_scalar_addresses_tx(Self::at_rest(actuators));
    }

    /// What a scalar command is translated into actuator by actuator goes
    /// to the `Tx` endpoint.
    proof fn lemma_scalar_each_addresses_tx(self, cmds: Seq<Option<(ActuatorType, u32)>>)
        ensures
            all_address(self.scalar_each(cmds), Endpoint::Tx),
        decreases cmds.len(),
    {
        if cmds.len() > 0 {
            self.lemma_scalar_each_addresses_tx(cmds.drop_last());
        }
    }

    /// An error among the first entries of a scalar command is the error of
    /// the whole command.
    proof fn lemma_scalar_each_error(
        self,
        cmds: Seq<Option<(ActuatorType, u32)>>,
        n: int,
        e: ButtplugDeviceError,
    )
        requires
            0 <= n <= cmds.len(),
            self.scalar_each(cmds.take(n)) == Err::<Seq<HardwareCommandModel>, ButtplugDeviceError>(e),
        ensures
            self.scalar_each(cmds) == Err::<Seq<HardwareCommandModel>, ButtplugDeviceError>(e),
        decreases cmds.len() - n,
    {
        if n == cmds.len() {
            assert(cmds.take(n) =~= cmds);
        } else {
            assert(cmds.take(n + 1).drop_last() =~= cmds.take(n));
            self.lemma_scalar_each_error(cmds, n + 1, e);
        }
    }

    /// Sets the speed of one vibrator.
    pub fn handle_scalar_vibrate_cmd(&self, index: u32, scalar: u32) -> (r: Result<
        Vec<HardwareCommand>,
        ButtplugDeviceError,
    >)
        ensures
            translated(r) == self.scalar_vibrate(index, scalar),
    {
        match self {
            ProtocolHandler::Aneros(handler) => handler.handle_scalar_vibrate_cmd(index, scalar),
            ProtocolHandler::JeJoue(_) => Err(
                ButtplugDeviceError::MessageNotSupported(ButtplugDeviceMessageType::ScalarCmd),
            ),
        }
    }

    /// Sets the magnitude of one scalar actuator.
    pub fn handle_scalar_actuator_cmd(&self, index: u32, actuator: ActuatorType, scalar: u32) -> (r:
        Result<Vec<HardwareCommand>, ButtplugDeviceError>)
        ensures
            translated(r) == self.scalar_actuator(index, actuator, scalar),
    {
        match actuator {
            ActuatorType::Vibrate => self.handle_scalar_vibrate_cmd(index, scalar),
            _ => Err(ButtplugDeviceError::MessageNotSupported(ButtplugDeviceMessageType::ScalarCmd)),
        }
    }

    /// Translates a scalar command actuator by actuator.
    fn handle_scalar_each(&self, cmds: &[Option<(ActuatorType, u32)>]) -> (r: Result<
        Vec<HardwareCommand>,
        ButtplugDeviceError,
    >)
        requires
            cmds@.len() <= Self::MAX_ACTUATORS,
        ensures
            translated(r) == self.scalar_each(cmds@),
    {
        let mut out: Vec<HardwareCommand> = Vec::new();
        let mut i: usize = 0;
        assert(command_models(out@) =~= Seq::empty());
        while i < cmds.len()
            invariant
                i <= cmds@.len() <= Self::MAX_ACTUATORS,
                self.scalar_each(cmds@.take(i as int)) == Ok::<
                    Seq<HardwareCommandModel>,
                    ButtplugDeviceError,
                >(command_models(out@)),
            decreases cmds@.len() - i,
        {
            proof {
                assert(cmds@.take(i + 1).drop_last() =~= cmds@.take(i as int));
                assert(cmds@.take(i + 1).last() == cmds@[i as int]);
            }
            match cmds[i] {
                None => {},
                Some((actuator, scalar)) => {
                    match self.handle_scalar_actuator_cmd(i as u32, actuator, scalar) {
                        Err(e) => {
                            proof {
                                self.lemma_scalar_each_error(cmds@, i + 1, e);
                            }
                            return Err(e);
                        },
                        Ok(mut commands) => {
                            let ghost before = out@;
                            let ghost added = commands@;
                            out.append(&mut commands);
                            assert(command_models(out@) =~= command_models(before)
                                + command_models(added));
                        },
                    }
                },
            }
            i += 1;
        }
        assert(cmds@.take(i as int) =~= cmds@);
        Ok(out)
    }

    /// Sets the magnitudes of the scalar actuators. Entry `i` of `cmds` is
    /// for actuator `i`; an absent entry leaves its actuator alone.
    pub fn handle_scalar_cmd(&self, cmds: &[Option<(ActuatorType, u32)>]) -> (r: Result<
        Vec<HardwareCommand>,
        ButtplugDeviceError,
    >)
        ensures
            translated(r) == self.scalar(cmds@),
    {
        match self {
            ProtocolHandler::JeJoue(handler) => handler.handle_scalar_cmd(cmds),
            ProtocolHandler::Aneros(_) => {
                if cmds.len() > Self::MAX_ACTUATORS {
                    Err(ButtplugDeviceError::ProtocolSpecificError(ProtocolFault::ActuatorCount))
                } else {
                    self.handle_scalar_each(cmds)
                }
            },
        }
    }

    /// Brings the device to rest. `actuators` are its scalar actuators.
    pub fn handle_stop_device_cmd(&self, actuators: &[ActuatorType]) -> (r: Result<
        Vec<HardwareCommand>,
        ButtplugDeviceError,
    >)
        ensures
            translated(r) == self.stop(actuators@),
    {
        if actuators.len() == 0 {
            let out: Vec<HardwareCommand> = Vec::new();
            assert(command_models(out@) =~= Seq::empty());
            return Ok(out);
        }
        let mut cmds: Vec<Option<(ActuatorType, u32)>> = Vec::new();
        let mut i: usize = 0;
        while i < actuators.len()
            invariant
                i <= actuators@.len(),
                cmds@ == Self::at_rest(actuators@.take(i as int)),
            decreases actuators@.len() - i,
        {
            cmds.push(Some((actuators[i], 0u32)));
            assert(cmds@ =~= Self::at_rest(actuators@.take(i + 1)));
            i += 1;
        }
        assert(actuators@.take(i as int) =~= actuators@);
        self.handle_scalar_cmd(cmds.as_slice())
    }

    /// Sets the speed and direction of the rotating actuators. No family
    /// here has any.
    pub fn handle_rotate_cmd(&self, _cmds: &[Option<(u32, bool)>]) -> (r: Result<
        Vec<HardwareCommand>,
        ButtplugDeviceError,
    >)
        ensures
            translated(r) == unsupported(ButtplugDeviceMessageType::RotateCmd),
    {
        Err(ButtplugDeviceError::MessageNotSupported(ButtplugDeviceMessageType::RotateCmd))
    }

    /// Moves the linear actuators, each to a position within a duration. No
    /// family here has any.
    pub fn handle_linear_cmd(&self, _cmds: &[Option<(u32, u32)>]) -> (r: Result<
        Vec<HardwareCommand>,
        ButtplugDeviceError,
    >)
        ensures
            translated(r) == unsupported(ButtplugDeviceMessageType::LinearCmd),
    {
        Err(ButtplugDeviceError::MessageNotSupported(ButtplugDeviceMessageType::LinearCmd))
    }

    /// Reads a sensor once. No family here has sensors.
    pub fn handle_sensor_read_cmd(&self, _sensor_index: u32, _sensor_type: SensorType) -> (r: Result<
        Vec<HardwareCommand>,
        ButtplugDeviceError,
    >)
        ensures
            translated(r) == unsupported(ButtplugDeviceMessageType::SensorReadCmd),
    {
        Err(ButtplugDeviceError::MessageNotSupported(ButtplugDeviceMessageType::SensorReadCmd))
    }

    /// Subscribes to a sensor. No family here has sensors.
    pub fn handle_sensor_subscribe_cmd(&self, _sensor_index: u32, _sensor_type: SensorType) -> (r:
        Result<Vec<HardwareCommand>, ButtplugDeviceError>)
        ensures
            translated(r) == unsupported(ButtplugDeviceMessageType::SensorSubscribeCmd),
    {
        Err(ButtplugDeviceError::MessageNotSupported(ButtplugDeviceMessageType::SensorSubscribeCmd))
    }

    /// Ends the subscription to a sensor. No family here has sensors.
    pub fn handle_sensor_unsubscribe_cmd(&self, _sensor_index: u32, _sensor_type: SensorType) -> (r:
        Result<Vec<HardwareCommand>, ButtplugDeviceError>)
        ensures
            translated(r) == unsupported(ButtplugDeviceMessageType::SensorUnsubscribeCmd),
    {
        Err(
            ButtplugDeviceError::MessageNotSupported(
                ButtplugDeviceMessageType::SensorUnsubscribeCmd,
            ),
        )
    }

    /// Passes a write through to the transport as it is.
    pub fn handle_raw_write_cmd(
        &self,
        endpoint: Endpoint,
        data: Vec<u8>,
        write_with_response: bool,
    ) -> (r: Result<Vec<HardwareCommand>, ButtplugDeviceError>)
        ensures
            translated(r) == Ok::<Seq<HardwareCommandModel>, ButtplugDeviceError>(
                seq![HardwareCommandModel::Write { endpoint, data: data@, write_with_response }],
            ),
    {
        Ok(single_command(HardwareWriteCmd::new(endpoint, data, write_with_response).into()))
    }

    /// Passes a read through to the transport as it is.
    pub fn handle_raw_read_cmd(&self, endpoint: Endpoint, length: u32, timeout_ms: u32) -> (r:
        Result<Vec<HardwareCommand>, ButtplugDeviceError>)
        ensures
            translated(r) == Ok::<Seq<HardwareCommandModel>, ButtplugDeviceError>(
                seq![HardwareCommandModel::Read { endpoint, length, timeout_ms }],
            ),
    {
        Ok(single_command(HardwareReadCmd::new(endpoint, length, timeout_ms).into()))
    }

    /// Passes a subscription through to the transport as it is.
    pub fn handle_raw_subscribe_cmd(&self, endpoint: Endpoint) -> (r: Result<
        Vec<HardwareCommand>,
        ButtplugDeviceError,
    >)
        ensures
            translated(r) == Ok::<Seq<HardwareCommandModel>, ButtplugDeviceError>(
                seq![HardwareCommandModel::Subscribe { endpoint }],
            ),
    {
        Ok(single_command(HardwareSubscribeCmd::new(endpoint).into()))
    }

    /// Passes the end of a subscription through to the transport as it is.
    pub fn handle_raw_unsubscribe_cmd(&self, endpoint: Endpoint) -> (r: Result<
        Vec<HardwareCommand>,
        ButtplugDeviceError,
    >)
        ensures
            translated(r) == Ok::<Seq<HardwareCommandModel>, ButtplugDeviceError>(
                seq![HardwareCommandModel::Unsubscribe { endpoint }],
            ),
    {
        Ok(single_command(HardwareUnsubscribeCmd::new(endpoint).into()))
    }
}

} // verus!
