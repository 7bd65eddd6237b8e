//! Validation of messages as they enter the system.

use crate::errors::{ButtplugMessageError, MessageFault};
use vstd::prelude::*;

verus! {

/// The verdict on a message id that must not be the system's own: id 0 is
/// refused, every other id passes.
pub open spec fn not_system_id(id: u32) -> Result<(), ButtplugMessageError> {
    if id == 0 {
        Err(ButtplugMessageError::InvalidMessageContents(MessageFault::ReservedSystemId))
    } else {
        Ok(())
    }
}

/// Checks that `id` is not the id reserved for system messages.
pub fn is_not_system_id(id: u32) -> (r: Result<(), ButtplugMessageError>)
    ensures
        r == not_system_id(id),
{
    if id == 0 {
        Err(ButtplugMessageError::InvalidMessageContents(MessageFault::ReservedSystemId))
    } else {
        Ok(())
    }
}

/// A message that can say whether its own contents are acceptable.
pub trait ButtplugMessageValidator {
    /// The verdict that `is_valid` computes.
    spec fn validity(&self) -> Result<(), ButtplugMessageError>;

    /// Checks the contents of the message.
    fn is_valid(&self) -> (r: Result<(), ButtplugMessageError>)
        ensures
            r == self.validity(),
    ;
}

} // verus!
