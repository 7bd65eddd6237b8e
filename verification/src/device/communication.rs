//! Discovery: what a communication manager reports, and the state of its
//! scan.
//!
//! The manager here decides; its caller talks to the radio. `start_scanning`
//! and `stop_scanning` say what the caller is to do, and the events that
//! they hand back go into the channel that the device manager reads.

use crate::errors::ButtplugDeviceError;
use vstd::prelude::*;

verus! {

/// What a communication manager reports to the device manager.
#[derive(Debug)]
pub enum CommunicationEvent<H> {
    /// A device was found at `address`, advertising `name`. `handle` is the
    /// transport's handle for the connection to it.
    DeviceDiscovered { address: String, name: String, handle: H },
    /// A scan has ended.
    ScanningFinished,
    /// The device at `address` is gone.
    DeviceLost { address: String },
}

/// The state of a communication manager.
pub ghost struct ScanningModel {
    /// Whether the transport is there to scan with.
    pub can_scan: bool,
    /// Whether a scan is under way.
    pub scanning: bool,
}

impl ScanningModel {
    /// The state after a request to start: scanning, if the transport is
    /// there.
    pub open spec fn started(self) -> ScanningModel {
        ScanningModel { can_scan: self.can_scan, scanning: self.scanning || self.can_scan }
    }

    /// What a request to start answers: an error without a transport, and
    /// else whether a scan is to begin now, which it is unless one is under
    /// way.
    pub open spec fn start_outcome(self) -> Result<bool, ButtplugDeviceError> {
        if !self.can_scan {
            Err(ButtplugDeviceError::TransportError)
        } else {
            Ok(!self.scanning)
        }
    }

    /// The state after a request to stop: idle.
    pub open spec fn stopped(self) -> ScanningModel {
        ScanningModel { can_scan: self.can_scan, scanning: false }
    }

    /// The number of `ScanningFinished` events that a request to stop
    /// emits: one if a scan is under way, none if not.
    pub open spec fn finished_on_stop(self) -> nat {
        if self.scanning {
            1
        } else {
            0
        }
    }

    /// Two requests to stop, one after the other, emit one
    /// `ScanningFinished` between them if a scan was under way and none if
    /// not; the second emits none and leaves the state as the first left
    /// it.
    pub proof fn lemma_stop_twice(self)
        ensures
            self.stopped().finished_on_stop() == 0,
            self.finished_on_stop() + self.stopped().finished_on_stop() == (if self.scanning {
                1nat
            } else {
                0nat
            }),
            self.stopped().stopped() == self.stopped(),
    {
    }

    /// A second request to start begins no second scan and leaves the
    /// state as the first left it.
    pub proof fn lemma_start_twice(self)
        ensures
            self.started().start_outcome() != Ok::<bool, ButtplugDeviceError>(true),
            self.started().started() == self.started(),
    {
    }
}

/// The scan of one communication manager: idle, or scanning.
#[derive(Debug)]
pub struct DeviceCommunicationManager {
    can_scan: bool,
    scanning: bool,
}

impl View for DeviceCommunicationManager {
    type V = ScanningModel;

    closed spec fn view(&self) -> ScanningModel {
        ScanningModel { can_scan: self.can_scan, scanning: self.scanning }
    }
}

impl DeviceCommunicationManager {
    /// An idle manager. `can_scan` says whether the transport is there to
    /// scan with.
    pub fn new(can_scan: bool) -> (r: Self)
        ensures
            r@ == (ScanningModel { can_scan, scanning: false }),
    {
        DeviceCommunicationManager { can_scan, scanning: false }
    }

    /// Whether the transport is there to scan with.
    pub fn can_scan(&self) -> (r: bool)
        ensures
            r == self@.can_scan,
    {
        self.can_scan
    }

    /// Whether a scan is under way.
    pub fn scanning_status(&self) -> (r: bool)
        ensures
            r == self@.scanning,
    {
        self.scanning
    }

    /// Asks for a scan. `Ok(true)` tells the caller to begin discovery on
    /// the transport; `Ok(false)` says that a scan is under way already and
    /// nothing is to be done. Without a transport the request fails and the
    /// manager stays idle.
    pub fn start_scanning(&mut self) -> (r: Result<bool, ButtplugDeviceError>)
        ensures
            r == old(self)@.start_outcome(),
            final(self)@ == old(self)@.started(),
    {
        if !self.can_scan {
            return Err(ButtplugDeviceError::TransportError);
        }
        let begin = !self.scanning;
        self.scanning = true;
        Ok(begin)
    }

    /// Asks for the scan to end. If one is under way the manager becomes
    /// idle and hands back the one `ScanningFinished` event of that scan;
    /// the caller ends discovery on the transport. An idle manager stays
    /// idle and hands back nothing.
    pub fn stop_scanning<H>(&mut self) -> (r: Option<CommunicationEvent<H>>)
        ensures
            final(self)@ == old(self)@.stopped(),
            old(self)@.finished_on_stop() == 1 ==> r == Some(
                CommunicationEvent::<H>::ScanningFinished,
            ),
            old(self)@.finished_on_stop() == 0 ==> r.is_none(),
    {
        if self.scanning {
            self.scanning = false;
            Some(CommunicationEvent::ScanningFinished)
        } else {
            None
        }
    }
}

} // verus!
