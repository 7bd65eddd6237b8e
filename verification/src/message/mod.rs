//! The vocabulary shared by commands, handlers and events, and the messages
//! of the session layer that the device layer consumes.

pub mod device_message_info;
pub mod endpoint;
pub mod request_device_list;
pub mod sensor_unsubscribe_cmd;
pub mod validator;

pub use device_message_info::{ActuatorType, ButtplugDeviceMessageType, SensorType};
pub use endpoint::Endpoint;
pub use request_device_list::RequestDeviceList;
pub use sensor_unsubscribe_cmd::{SensorUnsubscribeCmd, SensorUnsubscribeCmdModel};
pub use validator::{is_not_system_id, not_system_id, ButtplugMessageValidator};
