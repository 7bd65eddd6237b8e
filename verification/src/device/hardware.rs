//! The hardware command model: what a protocol handler asks the transport to
//! do. Pure values; building one never fails.

use crate::message::Endpoint;
use vstd::prelude::*;
use vstd::std_specs::convert::FromSpecImpl;

verus! {

/// A request to write bytes to an endpoint.
#[derive(Debug, PartialEq, Eq)]
pub struct HardwareWriteCmd {
    endpoint: Endpoint,
    data: Vec<u8>,
    write_with_response: bool,
}

/// A request to read from an endpoint.
#[derive(Debug, PartialEq, Eq)]
pub struct HardwareReadCmd {
    endpoint: Endpoint,
    length: u32,
    timeout_ms: u32,
}

/// A request to be notified of what an endpoint sends.
#[derive(Debug, PartialEq, Eq)]
pub struct HardwareSubscribeCmd {
    endpoint: Endpoint,
}

/// A request to end the notifications of an endpoint.
#[derive(Debug, PartialEq, Eq)]
pub struct HardwareUnsubscribeCmd {
    endpoint: Endpoint,
}

/// One operation on the transport of a device.
#[derive(Debug, PartialEq, Eq)]
pub enum HardwareCommand {
    Write(HardwareWriteCmd),
    Read(HardwareReadCmd),
    Subscribe(HardwareSubscribeCmd),
    Unsubscribe(HardwareUnsubscribeCmd),
}

/// What a hardware command says, with the payload as a sequence of bytes.
pub ghost enum HardwareCommandModel {
    Write { endpoint: Endpoint, data: Seq<u8>, write_with_response: bool },
    Read { endpoint: Endpoint, length: u32, timeout_ms: u32 },
    Subscribe { endpoint: Endpoint },
    Unsubscribe { endpoint: Endpoint },
}

impl View for HardwareWriteCmd {
    type V = HardwareCommandModel;

    closed spec fn view(&self) -> HardwareCommandModel {
        HardwareCommandModel::Write {
            endpoint: self.endpoint,
            data: self.data@,
            write_with_response: self.write_with_response,
        }
    }
}

impl View for HardwareReadCmd {
    type V = HardwareCommandModel;

    closed spec fn view(&self) -> HardwareCommandModel {
        HardwareCommandModel::Read {
            endpoint: self.endpoint,
            length: self.length,
            timeout_ms: self.timeout_ms,
        }
    }
}

impl View for HardwareSubscribeCmd {
    type V = HardwareCommandModel;

    closed spec fn view(&self) -> HardwareCommandModel {
        HardwareCommandModel::Subscribe { endpoint: self.endpoint }
    }
}

impl View for HardwareUnsubscribeCmd {
    type V = HardwareCommandModel;

    closed spec fn view(&self) -> HardwareCommandModel {
        HardwareCommandModel::Unsubscribe { endpoint: self.endpoint }
    }
}

impl View for HardwareCommand {
    type V = HardwareCommandModel;

    open spec fn view(&self) -> HardwareCommandModel {
        match self {
            HardwareCommand::Write(c) => c@,
            HardwareCommand::Read(c) => c@,
            HardwareCommand::Subscribe(c) => c@,
            HardwareCommand::Unsubscribe(c) => c@,
        }
    }
}

/// The models of a sequence of commands, in order.
pub open spec fn command_models(commands: Seq<HardwareCommand>) -> Seq<HardwareCommandModel> {
    Seq::new(commands.len(), |i: int| commands[i]@)
}

impl HardwareCommandModel {
    /// The endpoint that the command addresses.
    pub open spec fn endpoint(self) -> Endpoint {
        match self {
            HardwareCommandModel::Write { endpoint, .. } => endpoint,
            HardwareCommandModel::Read { endpoint, .. } => endpoint,
            HardwareCommandModel::Subscribe { endpoint } => endpoint,
            HardwareCommandModel::Unsubscribe { endpoint } => endpoint,
        }
    }
}

impl HardwareWriteCmd {
    /// A write of `data` to `endpoint`.
    pub fn new(endpoint: Endpoint, data: Vec<u8>, write_with_response: bool) -> (r: Self)
        ensures
            r@ == (HardwareCommandModel::Write { endpoint, data: data@, write_with_response }),
    {
        Self { endpoint, data, write_with_response }
    }

    /// The endpoint written to.
    pub fn endpoint(&self) -> (r: Endpoint)
        ensures
            r == self@.endpoint(),
    {
        self.endpoint
    }

    /// The bytes to write.
    pub fn data(&self) -> (r: &Vec<u8>)
        ensures
            self@ matches HardwareCommandModel::Write { data, .. } && r@ == data,
    {
        &self.data
    }

    /// Whether the transport is to wait for the device's acknowledgement.
    pub fn write_with_response(&self) -> (r: bool)
        ensures
            self@ matches HardwareCommandModel::Write { write_with_response, .. } && r
                == write_with_response,
    {
        self.write_with_response
    }
}

impl Clone for HardwareWriteCmd {
    fn clone(&self) -> (r: Self)
        ensures
            r@ == self@,
    {
        Self {
            endpoint: self.endpoint,
            data: self.data.clone(),
            write_with_response: self.write_with_response,
        }
    }
}

impl HardwareReadCmd {
    /// A read of `length` bytes from `endpoint`, given up after `timeout_ms`.
    pub fn new(endpoint: Endpoint, length: u32, timeout_ms: u32) -> (r: Self)
        ensures
            r@ == (HardwareCommandModel::Read { endpoint, length, timeout_ms }),
    {
        Self { endpoint, length, timeout_ms }
    }

    /// The endpoint read from.
    pub fn endpoint(&self) -> (r: Endpoint)
        ensures
            r == self@.endpoint(),
    {
        self.endpoint
    }

    /// The number of bytes asked for.
    pub fn length(&self) -> (r: u32)
        ensures
            self@ matches HardwareCommandModel::Read { length, .. } && r == length,
    {
        self.length
    }

    /// The time after which the read is given up, in milliseconds.
    pub fn timeout_ms(&self) -> (r: u32)
        ensures
            self@ matches HardwareCommandModel::Read { timeout_ms, .. } && r == timeout_ms,
    {
        self.timeout_ms
    }
}

impl Clone for HardwareReadCmd {
    fn clone(&self) -> (r: Self)
        ensures
            r@ == self@,
    {
        Self { endpoint: self.endpoint, length: self.length, timeout_ms: self.timeout_ms }
    }
}

impl HardwareSubscribeCmd {
    /// A subscription to `endpoint`.
    pub fn new(endpoint: Endpoint) -> (r: Self)
        ensures
            r@ == (HardwareCommandModel::Subscribe { endpoint }),
    {
        Self { endpoint }
    }

    /// The endpoint subscribed to.
    pub fn endpoint(&self) -> (r: Endpoint)
        ensures
            r == self@.endpoint(),
    {
        self.endpoint
    }
}

impl Clone for HardwareSubscribeCmd {
    fn clone(&self) -> (r: Self)
        ensures
            r@ == self@,
    {
        Self { endpoint: self.endpoint }
    }
}

impl HardwareUnsubscribeCmd {
    /// The end of the subscription to `endpoint`.
    pub fn new(endpoint: Endpoint) -> (r: Self)
        ensures
            r@ == (HardwareCommandModel::Unsubscribe { endpoint }),
    {
        Self { endpoint }
    }

    /// The endpoint whose notifications end.
    pub fn endpoint(&self) -> (r: Endpoint)
        ensures
            r == self@.endpoint(),
    {
        self.endpoint
    }
}

impl Clone for HardwareUnsubscribeCmd {
    fn clone(&self) -> (r: Self)
        ensures
            r@ == self@,
    {
        Self { endpoint: self.endpoint }
    }
}

impl Clone for HardwareCommand {
    fn clone(&self) -> (r: Self)
        ensures
            r@ == self@,
    {
        match self {
            HardwareCommand::Write(c) => HardwareCommand::Write(c.clone()),
            HardwareCommand::Read(c) => HardwareCommand::Read(c.clone()),
            HardwareCommand::Subscribe(c) => HardwareCommand::Subscribe(c.clone()),
            HardwareCommand::Unsubscribe(c) => HardwareCommand::Unsubscribe(c.clone()),
        }
    }
}

impl From<HardwareWriteCmd> for HardwareCommand {
    fn from(cmd: HardwareWriteCmd) -> (r: Self) {
        HardwareCommand::Write(cmd)
    }
}

impl FromSpecImpl<HardwareWriteCmd> for HardwareCommand {
    open spec fn obeys_from_spec() -> bool {
        true
    }

    open spec fn from_spec(cmd: HardwareWriteCmd) -> Self {
        HardwareCommand::Write(cmd)
    }
}

impl From<HardwareReadCmd> for HardwareCommand {
    fn from(cmd: HardwareReadCmd) -> (r: Self) {
        HardwareCommand::Read(cmd)
    }
}

impl FromSpecImpl<HardwareReadCmd> for HardwareCommand {
    open spec fn obeys_from_spec() -> bool {
        true
    }

    open spec fn from_spec(cmd: HardwareReadCmd) -> Self {
        HardwareCommand::Read(cmd)
    }
}

impl From<HardwareSubscribeCmd> for HardwareCommand {
    fn from(cmd: HardwareSubscribeCmd) -> (r: Self) {
        HardwareCommand::Subscribe(cmd)
    }
}

impl FromSpecImpl<HardwareSubscribeCmd> for HardwareCommand {
    open spec fn obeys_from_spec() -> bool {
        true
    }

    open spec fn from_spec(cmd: HardwareSubscribeCmd) -> Self {
        HardwareCommand::Subscribe(cmd)
    }
}

impl From<HardwareUnsubscribeCmd> for HardwareCommand {
    fn from(cmd: HardwareUnsubscribeCmd) -> (r: Self) {
        HardwareCommand::Unsubscribe(cmd)
    }
}

impl FromSpecImpl<HardwareUnsubscribeCmd> for HardwareCommand {
    open spec fn obeys_from_spec() -> bool {
        true
    }

    open spec fn from_spec(cmd: HardwareUnsubscribeCmd) -> Self {
        HardwareCommand::Unsubscribe(cmd)
    }
}

/// The failure of the transport to carry out a command.
#[derive(Debug, Clone, Copy, PartialEq, Eq, Structural)]
pub struct TransportError {}

} // verus!
