//! Power-state lifecycle of a UWB radio transceiver attached over a
//! register-oriented serial bus.
//!
//! The transceiver can be fully powered (`Ready`) or in a low-power state
//! (`Sleeping`) in which the bus interface is electrically disabled and no
//! register transaction can succeed.  The handle to the device carries this
//! phase at the type level: bus transactions exist only on the `Ready`
//! variant, and the wake-completion procedure exists only on the `Sleeping`
//! variant and consumes it.
//!
//! The register-transaction layer itself is an external collaborator; it is
//! represented here by [`bus::RegisterBus`], a scripted capability that
//! records every transaction it is asked to perform, so that the
//! wake-completion protocol can be stated and proved as a function of what
//! the device answers.

use vstd::prelude::*;

pub mod bus;
pub mod sleeping;

verus! {

/// Phase tag of a handle whose device is fully powered: the bus interface is
/// live and register transactions are permitted.
pub struct Ready;

/// Phase tag of a handle whose device is in a low-power state: the bus
/// interface is electrically disabled.  The only operation of this crate on
/// such a handle is the wake-completion procedure, which consumes it.
pub struct Sleeping;

/// The failures the wake-completion procedure can report.
#[derive(Debug, Clone, Copy, PartialEq, Eq)]
pub enum Error {
    /// The identity register did not answer with the expected tag: the
    /// device has not actually resumed.  The caller must redo the physical
    /// wake trigger with a fresh `Sleeping` handle; there is no retry path
    /// on the consumed one.
    StillAsleep,
    /// A transport-level failure of the register-transaction layer,
    /// forwarded verbatim and never reinterpreted.
    Bus(bus::BusFault),
}

/// Ghost view of a device handle: the sequence counter and the state of the
/// register-transaction capability it owns.
pub struct HandleView {
    pub seq: u8,
    pub bus: bus::BusView,
}

/// Handle to one physical transceiver.  It owns the register-transaction
/// capability exclusively and carries a monotonic sequence counter that is
/// opaque to this crate and simply carried through unchanged.  The `State`
/// parameter is the phase tag (`Sleeping` or `Ready`).
pub struct DW3000<State> {
    pub(crate) ll: bus::RegisterBus,
    pub(crate) seq: u8,
    pub(crate) state: State,
}

impl<State> View for DW3000<State> {
    type V = HandleView;

    closed spec fn view(&self) -> HandleView {
        HandleView { seq: self.seq, bus: self.ll@ }
    }
}

impl<State> DW3000<State> {
    /// The sequence counter carried by this handle.
    pub fn seq_counter(&self) -> (r: u8)
        ensures
            r == self@.seq,
    {
        self.seq
    }

    /// A look at the register-transaction capability this handle owns.
    pub fn ll(&self) -> (r: &bus::RegisterBus)
        ensures
            r@ == self@.bus,
    {
        &self.ll
    }
}

} // verus!
