//! A transport that lives in memory: it takes every command that it is
//! handed and keeps it, so that what a device sends can be looked at.

use crate::device::dispatch::Dispatch;
use crate::device::hardware::{
    command_models, HardwareCommand, HardwareCommandModel, TransportError,
};
use crate::device::protocol::translated;
use crate::device::server_device::{DeviceCommand, ServerDevice};
use crate::errors::ButtplugDeviceError;
use vstd::prelude::*;

verus! {

/// A transport that records instead of sending.
#[derive(Debug)]
pub struct TestDevice {
    received: Vec<HardwareCommand>,
}

impl View for TestDevice {
    type V = Seq<HardwareCommandModel>;

    /// The commands received and not yet handed out, oldest first.
    closed spec fn view(&self) -> Seq<HardwareCommandModel> {
        command_models(self.received@)
    }
}

impl TestDevice {
    /// A transport that has received nothing.
    pub fn new() -> (r: Self)
        ensures
            r@ == Seq::<HardwareCommandModel>::empty(),
    {
        let r = TestDevice { received: Vec::new() };
        assert(r@ =~= Seq::empty());
        r
    }

    /// Carries out a hardware command: the command joins the record, and
    /// the transport reports success.
    pub fn perform(&mut self, command: &HardwareCommand) -> (r: Result<(), TransportError>)
        ensures
            r is Ok,
            final(self)@ == old(self)@.push(command@),
    {
        self.received.push(command.clone());
        assert(self@ =~= old(self)@.push(command@));
        Ok(())
    }

    /// The commands received and not yet handed out, oldest first.
    pub fn received(&self) -> (r: &Vec<HardwareCommand>)
        ensures
            command_models(r@) == self@,
    {
        &self.received
    }

    /// Hands out the oldest command of the record, if there is one, and
    /// drops it from the record.
    pub fn next_received(&mut self) -> (r: Option<HardwareCommand>)
        ensures
            match r {
                Some(command) => old(self)@.len() > 0 && command@ == old(self)@.first()
                    && final(self)@ == old(self)@.drop_first(),
                None => old(self)@.len() == 0 && final(self)@ == old(self)@,
            },
    {
        if self.received.len() == 0 {
            return None;
        }
        let command = self.received.remove(0);
        assert(self@ =~= old(self)@.drop_first());
        Some(command)
    }

    /// Hands out the whole record.
    pub fn into_received(self) -> (r: Vec<HardwareCommand>)
        ensures
            command_models(r@) == self@,
    {
        self.received
    }

    /// Dispatches a command of a device to this transport. A command
    /// that has no translation fails with the error of the translation
    /// and leaves the record as it is. Every other command ends well, and
    /// the hardware commands of its translation have joined the record,
    /// in order.
    pub fn run<H>(&mut self, device: &ServerDevice<H>, command: &DeviceCommand) -> (r: Result<
        (),
        ButtplugDeviceError,
    >)
        ensures
            match device@.translation(command) {
                Err(e) => r == Err::<(), ButtplugDeviceError>(e) && final(self)@ == old(self)@,
                Ok(commands) => r == Ok::<(), ButtplugDeviceError>(()) && final(self)@ == old(
                    self,
                )@ + commands,
            },
    {
        let mut dispatch = Dispatch::new(device, command);
        let ghost start = dispatch@;
        assert(self@ + start.done() =~= self@);
        loop
            invariant
                dispatch@.wf(),
                dispatch@.translation == start.translation,
                !dispatch@.failed,
                self@ == old(self)@ + dispatch@.done(),
            ensures
                dispatch@.pending() is None,
            decreases
                    (match dispatch@.translation {
                        Ok(commands) => commands.len() - dispatch@.performed,
                        Err(_) => 0,
                    }),
        {
            let outcome = match dispatch.pending() {
                Some(command) => self.perform(command),
                None => {
                    break ;
                },
            };
            proof {
                dispatch@.lemma_reported(true);
                assert(self@ =~= old(self)@ + dispatch@.done().push(dispatch@.pending()->Some_0));
            }
            dispatch.report(outcome);
        }
        proof {
            dispatch@.lemma_success_is_complete();
            dispatch@.lemma_over_or_pending();
        }
        match dispatch.result() {
            Some(r) => r,
            None => Ok(()),
        }
    }

    /// What a device sends for a command: the command is dispatched to a
    /// transport that has received nothing, and the record of that
    /// transport is handed back. The record is what the handler produced,
    /// byte for byte.
    pub fn record<H>(device: &ServerDevice<H>, command: &DeviceCommand) -> (r: Result<
        Vec<HardwareCommand>,
        ButtplugDeviceError,
    >)
        ensures
            translated(r) == device@.translation(command),
    {
        let mut transport = TestDevice::new();
        match transport.run(device, command) {
            Ok(()) => {
                assert(Seq::<HardwareCommandModel>::empty() + device@.translation(command)->Ok_0
                    =~= device@.translation(command)->Ok_0);
                Ok(transport.into_received())
            },
            Err(e) => Err(e),
        }
    }
}

impl Default for TestDevice {
    fn default() -> (r: Self)
        ensures
            r@ == Seq::<HardwareCommandModel>::empty(),
    {
        TestDevice::new()
    }
}

} // verus!
