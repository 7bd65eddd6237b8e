//! The Aneros family: one write per vibrator, `[0xF1 + index, speed]`.

use crate::device::hardware::{HardwareCommand, HardwareCommandModel, HardwareWriteCmd};
use crate::device::protocol::{single_command, translated};
use crate::errors::{ButtplugDeviceError, ProtocolFault};
use crate::message::Endpoint;
use vstd::prelude::*;

verus! {

/// The handler of the Aneros family.
#[derive(Debug, Clone, Copy, PartialEq, Eq, Structural)]
pub struct Aneros {}

impl Aneros {
    /// The highest actuator index whose selector byte, `0xF1 + index`, exists.
    pub const MAX_INDEX: u32 = 0x0E;

    /// The highest speed that the speed byte can carry.
    pub const MAX_SCALAR: u32 = 0xFF;

    /// The translation of a vibrate command: a selector byte that names the
    /// vibrator, then the speed. An index or a speed that has no byte is
    /// refused.
    pub open spec fn scalar_vibrate(index: u32, scalar: u32) -> Result<
        Seq<HardwareCommandModel>,
        ButtplugDeviceError,
    > {
        if index > Self::MAX_INDEX {
            Err(ButtplugDeviceError::ProtocolSpecificError(ProtocolFault::ActuatorIndex))
        } else if scalar > Self::MAX_SCALAR {
            Err(ButtplugDeviceError::ProtocolSpecificError(ProtocolFault::Magnitude))
        } else {
            Ok(
                seq![
                    HardwareCommandModel::Write {
                        endpoint: Endpoint::Tx,
                        data: seq![(0xF1 + index) as u8, scalar as u8],
                        write_with_response: false,
                    },
                ],
            )
        }
    }

    /// Sets the speed of one vibrator.
    pub fn handle_scalar_vibrate_cmd(&self, index: u32, scalar: u32) -> (r: Result<
        Vec<HardwareCommand>,
        ButtplugDeviceError,
    >)
        ensures
            translated(r) == Self::scalar_vibrate(index, scalar),
    {
        if index > Self::MAX_INDEX {
            return Err(ButtplugDeviceError::ProtocolSpecificError(ProtocolFault::ActuatorIndex));
        }
        if scalar > Self::MAX_SCALAR {
            return Err(ButtplugDeviceError::ProtocolSpecificError(ProtocolFault::Magnitude));
        }
        let data: Vec<u8> = vec![0xF1 + (index as u8), scalar as u8];
        assert(data@ =~= seq![(0xF1 + index) as u8, scalar as u8]);
        Ok(single_command(HardwareWriteCmd::new(Endpoint::Tx, data, false).into()))
    }
}

impl Default for Aneros {
    fn default() -> (r: Self)
        ensures
            r == (Aneros {  }),
    {
        Aneros {  }
    }
}

} // verus!
