//! The command that ends a subscription to a sensor.

use crate::errors::ButtplugMessageError;
use crate::message::device_message_info::SensorType;
use crate::message::validator::{is_not_system_id, not_system_id, ButtplugMessageValidator};
use vstd::prelude::*;

verus! {

/// Ends the subscription to one sensor of one device.
#[derive(Debug, PartialEq, Eq)]
pub struct SensorUnsubscribeCmd {
    id: u32,
    device_index: u32,
    sensor_index: u32,
    sensor_type: SensorType,
}

/// What a `SensorUnsubscribeCmd` holds.
pub ghost struct SensorUnsubscribeCmdModel {
    pub id: u32,
    pub device_index: u32,
    pub sensor_index: u32,
    pub sensor_type: SensorType,
}

impl View for SensorUnsubscribeCmd {
    type V = SensorUnsubscribeCmdModel;

    closed spec fn view(&self) -> SensorUnsubscribeCmdModel {
        SensorUnsubscribeCmdModel {
            id: self.id,
            device_index: self.device_index,
            sensor_index: self.sensor_index,
            sensor_type: self.sensor_type,
        }
    }
}

impl SensorUnsubscribeCmd {
    /// A command for the given sensor, with the first id that is free for
    /// clients.
    pub fn new(device_index: u32, sensor_index: u32, sensor_type: SensorType) -> (r: Self)
        ensures
            r@ == (SensorUnsubscribeCmdModel { id: 1, device_index, sensor_index, sensor_type }),
    {
        Self { id: 1, device_index, sensor_index, sensor_type }
    }

    /// The message id.
    pub fn id(&self) -> (r: u32)
        ensures
            r == self@.id,
    {
        self.id
    }

    /// Replaces the message id and nothing else.
    pub fn set_id(&mut self, id: u32)
        ensures
            final(self)@ == (SensorUnsubscribeCmdModel { id, ..old(self)@ }),
    {
        self.id = id;
    }

    /// The index of the device that the command addresses.
    pub fn device_index(&self) -> (r: u32)
        ensures
            r == self@.device_index,
    {
        self.device_index
    }

    /// Readdresses the command to another device and changes nothing else.
    pub fn set_device_index(&mut self, device_index: u32)
        ensures
            final(self)@ == (SensorUnsubscribeCmdModel { device_index, ..old(self)@ }),
    {
        self.device_index = device_index;
    }

    /// The index of the sensor among the device's sensors.
    pub fn sensor_index(&self) -> (r: &u32)
        ensures
            *r == self@.sensor_index,
    {
        &self.sensor_index
    }

    /// The kind of the sensor.
    pub fn sensor_type(&self) -> (r: &SensorType)
        ensures
            *r == self@.sensor_type,
    {
        &self.sensor_type
    }
}

impl Clone for SensorUnsubscribeCmd {
    fn clone(&self) -> (r: Self)
        ensures
            r@ == self@,
    {
        Self {
            id: self.id,
            device_index: self.device_index,
            sensor_index: self.sensor_index,
            sensor_type: self.sensor_type,
        }
    }
}

impl ButtplugMessageValidator for SensorUnsubscribeCmd {
    open spec fn validity(&self) -> Result<(), ButtplugMessageError> {
        not_system_id(self@.id)
    }

    fn is_valid(&self) -> (r: Result<(), ButtplugMessageError>) {
        is_not_system_id(self.id)
    }
}

} // verus!
