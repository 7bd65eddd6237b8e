//! The Je Joue family: two vibrators that share one speed. A write carries a
//! pattern byte, which says which of the two run, and the speed.

use crate::device::hardware::{HardwareCommand, HardwareCommandModel, HardwareWriteCmd};
use crate::device::protocol::{single_command, translated};
use crate::errors::{ButtplugDeviceError, ProtocolFault};
use crate::message::{ActuatorType, Endpoint};
use vstd::prelude::*;

verus! {

/// The handler of the Je Joue family.
#[derive(Debug, Clone, Copy, PartialEq, Eq, Structural)]
pub struct JeJoue {}

impl JeJoue {
    /// The highest speed that the speed byte can carry.
    pub const MAX_SCALAR: u32 = 0xFF;

    /// Pattern byte: both vibrators run.
    pub const PATTERN_BOTH: u8 = 1;

    /// Pattern byte: only the first vibrator runs.
    pub const PATTERN_FIRST: u8 = 2;

    /// Pattern byte: only the second vibrator runs.
    pub const PATTERN_SECOND: u8 = 3;

    /// The magnitude asked of an actuator; an absent entry asks for none.
    pub open spec fn magnitude(cmd: Option<(ActuatorType, u32)>) -> u32 {
        match cmd {
            Some((_, scalar)) => scalar,
            None => 0,
        }
    }

    /// The pattern byte for the two magnitudes. With both at rest the device
    /// is addressed as with both running.
    pub open spec fn pattern(first: u32, second: u32) -> u8 {
        if first > 0 && second == 0 {
            Self::PATTERN_FIRST
        } else if first == 0 && second > 0 {
            Self::PATTERN_SECOND
        } else {
            Self::PATTERN_BOTH
        }
    }

    /// The shared speed: that of the first vibrator, and that of the second
    /// where the first is at rest.
    pub open spec fn speed(first: u32, second: u32) -> u32 {
        if first > 0 {
            first
        } else {
            second
        }
    }

    /// The translation of a scalar command: one write of `[pattern, speed]`,
    /// computed from the first two entries alone. A command with fewer than
    /// two entries, or with a magnitude that has no byte, is refused.
    pub open spec fn scalar(cmds: Seq<Option<(ActuatorType, u32)>>) -> Result<
        Seq<HardwareCommandModel>,
        ButtplugDeviceError,
    > {
        if cmds.len() < 2 {
            Err(ButtplugDeviceError::ProtocolSpecificError(ProtocolFault::ActuatorCount))
        } else if Self::magnitude(cmds[0]) > Self::MAX_SCALAR || Self::magnitude(cmds[1])
            > Self::MAX_SCALAR {
            Err(ButtplugDeviceError::ProtocolSpecificError(ProtocolFault::Magnitude))
        } else {
            let first = Self::magnitude(cmds[0]);
            let second = Self::magnitude(cmds[1]);
            Ok(
                seq![
                    HardwareCommandModel::Write {
                        endpoint: Endpoint::Tx,
                        data: seq![Self::pattern(first, second), Self::speed(first, second) as u8],
                        write_with_response: false,
                    },
                ],
            )
        }
    }

    /// The magnitude asked of an actuator.
    fn magnitude_of(cmd: &Option<(ActuatorType, u32)>) -> (r: u32)
        ensures
            r == Self::magnitude(*cmd),
    {
        match cmd {
            Some((_, scalar)) => *scalar,
            None => 0,
        }
    }

    /// Sets the speeds of the two vibrators at once.
    pub fn handle_scalar_cmd(&self, cmds: &[Option<(ActuatorType, u32)>]) -> (r: Result<
        Vec<HardwareCommand>,
        ButtplugDeviceError,
    >)
        ensures
            translated(r) == Self::scalar(cmds@),
    {
        if cmds.len() < 2 {
            return Err(ButtplugDeviceError::ProtocolSpecificError(ProtocolFault::ActuatorCount));
        }
        let first: u32 = Self::magnitude_of(&cmds[0]);
        let second: u32 = Self::magnitude_of(&cmds[1]);
        if first > Self::MAX_SCALAR || second > Self::MAX_SCALAR {
            return Err(ButtplugDeviceError::ProtocolSpecificError(ProtocolFault::Magnitude));
        }
        // Both vibrators by default, at the speed of the first.
        let mut pattern: u8 = Self::PATTERN_BOTH;
        let mut speed: u8 = first as u8;
        // With the first at rest the second gets its chance.
        if speed == 0 {
            speed = second as u8;
            if speed != 0 {
                pattern = Self::PATTERN_SECOND;
            }
        }
        if pattern == Self::PATTERN_BOTH && speed != 0 && second == 0 {
            pattern = Self::PATTERN_FIRST;
        }
        let data: Vec<u8> = vec![pattern, speed];
        assert(data@ =~= seq![Self::pattern(first, second), Self::speed(first, second) as u8]);
        Ok(single_command(HardwareWriteCmd::new(Endpoint::Tx, data, false).into()))
    }

    /// With both vibrators running, the write is `[1, speed]`, at the speed
    /// of the first.
    pub proof fn lemma_both_running(cmds: Seq<Option<(ActuatorType, u32)>>)
        requires
            cmds.len() >= 2,
            0 < Self::magnitude(cmds[0]) <= Self::MAX_SCALAR,
            0 < Self::magnitude(cmds[1]) <= Self::MAX_SCALAR,
        ensures
            Self::scalar(cmds) == Ok::<Seq<HardwareCommandModel>, ButtplugDeviceError>(
                seq![
                    HardwareCommandModel::Write {
                        endpoint: Endpoint::Tx,
                        data: seq![1u8, Self::magnitude(cmds[0]) as u8],
                        write_with_response: false,
                    },
                ],
            ),
    {
    }

    /// With the first vibrator at rest and the second running, the write is
    /// `[3, speed]`, at the speed of the second.
    pub proof fn lemma_second_only(cmds: Seq<Option<(ActuatorType, u32)>>)
        requires
            cmds.len() >= 2,
            Self::magnitude(cmds[0]) == 0,
            0 < Self::magnitude(cmds[1]) <= Self::MAX_SCALAR,
        ensures
            Self::scalar(cmds) == Ok::<Seq<HardwareCommandModel>, ButtplugDeviceError>(
                seq![
                    HardwareCommandModel::Write {
                        endpoint: Endpoint::Tx,
                        data: seq![3u8, Self::magnitude(cmds[1]) as u8],
                        write_with_response: false,
                    },
                ],
            ),
    {
    }

    /// With the first vibrator running and the second at rest, the write is
    /// `[2, speed]`, at the speed of the first.
    pub proof fn lemma_first_only(cmds: Seq<Option<(ActuatorType, u32)>>)
        requires
            cmds.len() >= 2,
            0 < Self::magnitude(cmds[0]) <= Self::MAX_SCALAR,
            Self::magnitude(cmds[1]) == 0,
        ensures
            Self::scalar(cmds) == Ok::<Seq<HardwareCommandModel>, ButtplugDeviceError>(
                seq![
                    HardwareCommandModel::Write {
                        endpoint: Endpoint::Tx,
                        data: seq![2u8, Self::magnitude(cmds[0]) as u8],
                        write_with_response: false,
                    },
                ],
            ),
    {
    }
}

impl Default for JeJoue {
    fn default() -> (r: Self)
        ensures
            r == (JeJoue {  }),
    {
        JeJoue {  }
    }
}

} // verus!
