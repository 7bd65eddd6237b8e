//! Devices: the hardware command model, the protocol handlers, discovery and
//! the lifecycle of connected devices.

pub mod hardware;
pub mod protocol;
pub mod configuration;
pub mod server_device;
pub mod test_device;
pub mod communication;
pub mod manager;
pub mod dispatch;
