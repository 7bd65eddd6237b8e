//! The dispatch of one abstract command: the hardware commands that it
//! stands for go to the transport one after the other, and the first that
//! the transport fails ends the dispatch.
//!
//! The transport is not here. A `Dispatch` says which hardware command is
//! to be carried out now; the caller carries it out and reports how it
//! went. What was carried out before a failure stays done, and nothing is
//! tried again.

use crate::device::hardware::{
    command_models, HardwareCommand, HardwareCommandModel, TransportError,
};
use crate::device::server_device::{DeviceCommand, ServerDevice, ServerDeviceModel};
use crate::errors::ButtplugDeviceError;
use vstd::prelude::*;

verus! {

/// The state of a dispatch.
pub ghost struct DispatchModel {
    /// The hardware commands that the command stands for, or the error of
    /// its translation.
    pub translation: Result<Seq<HardwareCommandModel>, ButtplugDeviceError>,
    /// The number of hardware commands that the transport has carried out.
    pub performed: nat,
    /// Whether the transport has failed a hardware command.
    pub failed: bool,
}

impl DispatchModel {
    /// The dispatch of a command with the given translation, before the
    /// transport has seen anything of it.
    pub open spec fn begin(
        translation: Result<Seq<HardwareCommandModel>, ButtplugDeviceError>,
    ) -> DispatchModel {
        DispatchModel { translation, performed: 0, failed: false }
    }

    /// No more has been carried out than there is, and only a command that
    /// has a translation has reached the transport.
    pub open spec fn wf(self) -> bool {
        match self.translation {
            Ok(commands) => self.performed <= commands.len() && (self.failed ==> self.performed
                < commands.len()),
            Err(_) => self.performed == 0 && !self.failed,
        }
    }

    /// The hardware command that the transport is to carry out now, if the
    /// dispatch is not over.
    pub open spec fn pending(self) -> Option<HardwareCommandModel> {
        match self.translation {
            Ok(commands) => if !self.failed && self.performed < commands.len() {
                Some(commands[self.performed as int])
            } else {
                None
            },
            Err(_) => None,
        }
    }

    /// How the dispatch ended, if it is over: with the error of the
    /// translation, with `TransportError` after a failure of the
    /// transport, or well once every hardware command is carried out.
    pub open spec fn result(self) -> Option<Result<(), ButtplugDeviceError>> {
        match self.translation {
            Err(e) => Some(Err(e)),
            Ok(commands) => if self.failed {
                Some(Err(ButtplugDeviceError::TransportError))
            } else if self.performed >= commands.len() {
                Some(Ok(()))
            } else {
                None
            },
        }
    }

    /// The hardware commands that the transport has carried out, in order.
    pub open spec fn done(self) -> Seq<HardwareCommandModel> {
        match self.translation {
            Ok(commands) => commands.take(self.performed as int),
            Err(_) => Seq::empty(),
        }
    }

    /// The state after the transport's report on the pending command: one
    /// more is carried out, or the dispatch has failed. A report that
    /// comes when nothing is pending changes nothing.
    pub open spec fn reported(self, carried_out: bool) -> DispatchModel {
        if self.pending() is None {
            self
        } else if carried_out {
            DispatchModel { performed: (self.performed + 1) as nat, ..self }
        } else {
            DispatchModel { failed: true, ..self }
        }
    }

    /// The dispatch of a command that has no translation is over before
    /// it began: it has ended with the error of the translation, and the
    /// transport is asked for nothing.
    pub proof fn lemma_untranslated_is_over(e: ButtplugDeviceError)
        ensures
            Self::begin(Err(e)).pending() is None,
            Self::begin(Err(e)).result() == Some(Err::<(), ButtplugDeviceError>(e)),
            Self::begin(Err(e)).done() == Seq::<HardwareCommandModel>::empty(),
    {
    }

    /// The dispatch of a raw command to a device that does not take raw
    /// commands ends with `MessageNotSupported`, whichever kind of raw
    /// command it is, and nothing reaches the transport.
    pub proof fn lemma_raw_dispatch_needs_permission<H>(
        device: ServerDeviceModel<H>,
        command: &DeviceCommand,
    )
        requires
            command.is_raw(),
            !device.allow_raw,
        ensures
            Self::begin(device.translation(command)).result() == Some(
                Err::<(), ButtplugDeviceError>(
                    ButtplugDeviceError::MessageNotSupported(command.kind()),
                ),
            ),
            Self::begin(device.translation(command)).pending() is None,
    {
        device.lemma_raw_commands_need_permission(command);
    }

    /// A dispatch is over exactly when nothing is pending.
    pub proof fn lemma_over_or_pending(self)
        ensures
            self.pending() is None <==> self.result() is Some,
    {
    }

    /// A report keeps the state well-formed and the translation as it is.
    /// A success adds the pending command to what is done; a failure adds
    /// nothing.
    pub proof fn lemma_reported(self, carried_out: bool)
        requires
            self.wf(),
        ensures
            self.reported(carried_out).wf(),
            self.reported(carried_out).translation == self.translation,
            self.pending() is Some && carried_out ==> self.reported(carried_out).done()
                == self.done().push(self.pending()->Some_0),
            !(self.pending() is Some && carried_out) ==> self.reported(carried_out).done()
                == self.done(),
    {
        if self.pending() is Some && carried_out {
            let commands = self.translation->Ok_0;
            assert(commands.take(self.performed as int + 1) =~= commands.take(self.performed as int).push(
                commands[self.performed as int],
            ));
        }
    }

    /// A failure of the transport ends the dispatch with `TransportError`:
    /// nothing is pending after it, and no later report changes that.
    pub proof fn lemma_failure_is_final(self, later: bool)
        requires
            self.wf(),
            self.pending() is Some,
        ensures
            self.reported(false).pending() is None,
            self.reported(false).result() == Some(
                Err::<(), ButtplugDeviceError>(ButtplugDeviceError::TransportError),
            ),
            self.reported(false).reported(later) == self.reported(false),
    {
    }

    /// A dispatch that is over has ended well exactly when the transport
    /// has carried out every hardware command of the translation.
    pub proof fn lemma_success_is_complete(self)
        requires
            self.wf(),
        ensures
            self.result() == Some(Ok::<(), ButtplugDeviceError>(())) <==> self.translation is Ok
                && self.done() == self.translation->Ok_0,
    {
        if self.translation is Ok {
            let commands = self.translation->Ok_0;
            if self.performed >= commands.len() {
                assert(commands.take(self.performed as int) =~= commands);
            } else {
                assert(commands.take(self.performed as int).len() != commands.len());
            }
        }
    }
}

/// The dispatch of one abstract command to one device.
#[derive(Debug)]
pub struct Dispatch {
    translation: Result<Vec<HardwareCommand>, ButtplugDeviceError>,
    performed: usize,
    failed: bool,
}

impl View for Dispatch {
    type V = DispatchModel;

    closed spec fn view(&self) -> DispatchModel {
        DispatchModel {
            translation: match self.translation {
                Ok(commands) => Ok(command_models(commands@)),
                Err(e) => Err(e),
            },
            performed: self.performed as nat,
            failed: self.failed,
        }
    }
}

impl Dispatch {
    #[verifier::type_invariant]
    spec fn well_formed(self) -> bool {
        self@.wf()
    }

    /// Begins the dispatch of `command` to `device`.
    pub fn new<H>(device: &ServerDevice<H>, command: &DeviceCommand) -> (r: Self)
        ensures
            r@ == DispatchModel::begin(device@.translation(command)),
            r@.wf(),
    {
        Dispatch { translation: device.translate(command), performed: 0, failed: false }
    }

    /// The hardware command that the transport is to carry out now.
    /// `None` says that the dispatch is over.
    pub fn pending(&self) -> (r: Option<&HardwareCommand>)
        ensures
            self@.wf(),
            match r {
                Some(command) => self@.pending() == Some(command@),
                None => self@.pending() is None,
            },
    {
        proof {
            use_type_invariant(self);
        }
        match &self.translation {
            Ok(commands) => {
                if !self.failed && self.performed < commands.len() {
                    Some(&commands[self.performed])
                } else {
                    None
                }
            },
            Err(_) => None,
        }
    }

    /// Takes the transport's report on the pending command.
    pub fn report(&mut self, outcome: Result<(), TransportError>)
        ensures
            old(self)@.wf(),
            final(self)@ == old(self)@.reported(outcome is Ok),
            final(self)@.wf(),
    {
        proof {
            use_type_invariant(&*self);
            self@.lemma_reported(outcome is Ok);
        }
        let pending = match &self.translation {
            Ok(commands) => !self.failed && self.performed < commands.len(),
            Err(_) => false,
        };
        if pending {
            match outcome {
                Ok(()) => {
                    self.performed = self.performed + 1;
                },
                Err(_) => {
                    self.failed = true;
                },
            }
        }
    }

    /// How the dispatch ended. `None` says that it is not over.
    pub fn result(&self) -> (r: Option<Result<(), ButtplugDeviceError>>)
        ensures
            self@.wf(),
            r == self@.result(),
    {
        proof {
            use_type_invariant(self);
        }
        match &self.translation {
            Err(e) => Some(Err(*e)),
            Ok(commands) => {
                if self.failed {
                    Some(Err(ButtplugDeviceError::TransportError))
                } else if self.performed >= commands.len() {
                    Some(Ok(()))
                } else {
                    None
                }
            },
        }
    }

    /// The number of hardware commands that the transport has carried out.
    pub fn performed(&self) -> (r: usize)
        ensures
            r == self@.performed,
    {
        self.performed
    }
}

} // verus!
