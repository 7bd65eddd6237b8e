//! Typed errors of the message layer and of the device layer.

use crate::message::ButtplugDeviceMessageType;
use vstd::prelude::*;

verus! {

/// Why the contents of a message were refused.
#[derive(Debug, Clone, Copy, PartialEq, Eq, Structural)]
pub enum MessageFault {
    /// The message carries id 0, which only messages that the system itself
    /// originates may use.
    ReservedSystemId,
}

/// Errors found while validating a message.
#[derive(Debug, Clone, Copy, PartialEq, Eq, Structural)]
pub enum ButtplugMessageError {
    /// The message is well-typed but its contents break a rule of the format.
    InvalidMessageContents(MessageFault),
}

/// Why a protocol handler refused the arguments of a command.
#[derive(Debug, Clone, Copy, PartialEq, Eq, Structural)]
pub enum ProtocolFault {
    /// The command addresses fewer actuators than the wire format combines.
    ActuatorCount,
    /// The actuator index has no encoding in the wire format.
    ActuatorIndex,
    /// The magnitude does not fit the field that the wire format gives it.
    Magnitude,
}

/// Errors that translating or executing a device command can end in.
#[derive(Debug, Clone, Copy, PartialEq, Eq, Structural)]
pub enum ButtplugDeviceError {
    /// The device, or the handler bound to it, does not take this kind of
    /// command. A normal rejection.
    MessageNotSupported(ButtplugDeviceMessageType),
    /// An argument is out of range for this hardware.
    ProtocolSpecificError(ProtocolFault),
    /// The transport failed while carrying out a hardware command.
    TransportError,
    /// No entry of the configuration table matches a discovered device.
    NoMatchingHandler,
}

} // verus!
