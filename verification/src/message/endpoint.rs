//! Logical channels of a device.

use vstd::prelude::*;

verus! {

/// A named logical channel that a device exposes. What stands behind a
/// name on the wire, a characteristic or a serial line, is the transport's
/// concern.
#[derive(Debug, Clone, Copy, PartialEq, Eq, Hash, Structural)]
pub enum Endpoint {
    Command,
    Firmware,
    Rx,
    RxAccel,
    RxBLEBattery,
    RxBLEModel,
    RxPressure,
    RxTouch,
    Tx,
    TxMode,
    TxShock,
    TxVibrate,
    TxVendorControl,
    Whitelist,
}

} // verus!
