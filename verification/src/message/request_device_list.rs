//! The request for the list of connected devices.

use crate::errors::ButtplugMessageError;
use crate::message::validator::{is_not_system_id, not_system_id, ButtplugMessageValidator};
use vstd::prelude::*;

verus! {

/// Asks for the devices that are currently connected.
#[derive(Debug, PartialEq, Eq)]
pub struct RequestDeviceList {
    id: u32,
}

impl View for RequestDeviceList {
    type V = u32;

    /// A request is its message id.
    closed spec fn view(&self) -> u32 {
        self.id
    }
}

impl RequestDeviceList {
    /// The message id.
    pub fn id(&self) -> (r: u32)
        ensures
            r == self@,
    {
        self.id
    }

    /// Replaces the message id.
    pub fn set_id(&mut self, id: u32)
        ensures
            final(self)@ == id,
    {
        self.id = id;
    }
}

impl Default for RequestDeviceList {
    /// A request with the first id that is free for clients.
    fn default() -> (r: Self)
        ensures
            r@ == 1,
    {
        Self { id: 1 }
    }
}

impl Clone for RequestDeviceList {
    fn clone(&self) -> (r: Self)
        ensures
            r@ == self@,
    {
        Self { id: self.id }
    }
}

impl ButtplugMessageValidator for RequestDeviceList {
    open spec fn validity(&self) -> Result<(), ButtplugMessageError> {
        not_system_id(self@)
    }

    fn is_valid(&self) -> (r: Result<(), ButtplugMessageError>) {
        is_not_system_id(self.id)
    }
}

} // verus!
