//! Kinds of actuators, sensors and device commands.

use vstd::prelude::*;

verus! {

/// What an actuator does.
#[derive(Debug, Clone, Copy, PartialEq, Eq, Hash, Structural)]
pub enum ActuatorType {
    Unknown,
    Vibrate,
    Rotate,
    Oscillate,
    Constrict,
    Inflate,
    Position,
}

/// What a sensor measures.
#[derive(Debug, Clone, Copy, PartialEq, Eq, Hash, Structural)]
pub enum SensorType {
    Unknown,
    Battery,
    RSSI,
    Button,
    Pressure,
}

/// The kinds of command that a device may accept.
#[derive(Debug, Clone, Copy, PartialEq, Eq, Hash, Structural)]
pub enum ButtplugDeviceMessageType {
    ScalarCmd,
    VibrateCmd,
    SingleMotorVibrateCmd,
    RotateCmd,
    LinearCmd,
    SensorReadCmd,
    SensorSubscribeCmd,
    SensorUnsubscribeCmd,
    StopDeviceCmd,
    RawWriteCmd,
    RawReadCmd,
    RawSubscribeCmd,
    RawUnsubscribeCmd,
}

impl ButtplugDeviceMessageType {
    /// Every kind of command, in the order in which devices announce them.
    pub open spec fn all_kinds() -> Seq<ButtplugDeviceMessageType> {
        seq![
            ButtplugDeviceMessageType::ScalarCmd,
            ButtplugDeviceMessageType::VibrateCmd,
            ButtplugDeviceMessageType::SingleMotorVibrateCmd,
            ButtplugDeviceMessageType::RotateCmd,
            ButtplugDeviceMessageType::LinearCmd,
            ButtplugDeviceMessageType::SensorReadCmd,
            ButtplugDeviceMessageType::SensorSubscribeCmd,
            ButtplugDeviceMessageType::SensorUnsubscribeCmd,
            ButtplugDeviceMessageType::StopDeviceCmd,
            ButtplugDeviceMessageType::RawWriteCmd,
            ButtplugDeviceMessageType::RawReadCmd,
            ButtplugDeviceMessageType::RawSubscribeCmd,
            ButtplugDeviceMessageType::RawUnsubscribeCmd,
        ]
    }

    /// Every kind of command, in the order in which devices announce them.
    pub fn all() -> (r: Vec<ButtplugDeviceMessageType>)
        ensures
            r@ == Self::all_kinds(),
    {
        vec![
            ButtplugDeviceMessageType::ScalarCmd,
            ButtplugDeviceMessageType::VibrateCmd,
            ButtplugDeviceMessageType::SingleMotorVibrateCmd,
            ButtplugDeviceMessageType::RotateCmd,
            ButtplugDeviceMessageType::LinearCmd,
            ButtplugDeviceMessageType::SensorReadCmd,
            ButtplugDeviceMessageType::SensorSubscribeCmd,
            ButtplugDeviceMessageType::SensorUnsubscribeCmd,
            ButtplugDeviceMessageType::StopDeviceCmd,
            ButtplugDeviceMessageType::RawWriteCmd,
            ButtplugDeviceMessageType::RawReadCmd,
            ButtplugDeviceMessageType::RawSubscribeCmd,
            ButtplugDeviceMessageType::RawUnsubscribeCmd,
        ]
    }

    /// The list of all kinds holds every kind, each once.
    pub proof fn lemma_all_kinds_complete()
        ensures
            forall|kind: ButtplugDeviceMessageType| Self::all_kinds().contains(kind),
            Self::all_kinds().no_duplicates(),
    {
        let all = Self::all_kinds();
        assert forall|kind: ButtplugDeviceMessageType| all.contains(kind) by {
            let i: int = match kind {
                ButtplugDeviceMessageType::ScalarCmd => 0,
                ButtplugDeviceMessageType::VibrateCmd => 1,
                ButtplugDeviceMessageType::SingleMotorVibrateCmd => 2,
                ButtplugDeviceMessageType::RotateCmd => 3,
                ButtplugDeviceMessageType::LinearCmd => 4,
                ButtplugDeviceMessageType::SensorReadCmd => 5,
                ButtplugDeviceMessageType::SensorSubscribeCmd => 6,
                ButtplugDeviceMessageType::SensorUnsubscribeCmd => 7,
                ButtplugDeviceMessageType::StopDeviceCmd => 8,
                ButtplugDeviceMessageType::RawWriteCmd => 9,
                ButtplugDeviceMessageType::RawReadCmd => 10,
                ButtplugDeviceMessageType::RawSubscribeCmd => 11,
                ButtplugDeviceMessageType::RawUnsubscribeCmd => 12,
            };
            assert(all[i] == kind);
        }
    }
}

} // verus!
