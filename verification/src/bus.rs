//! The register-transaction capability the wake-completion protocol
//! consumes.
//!
//! While the device sleeps its bus interface is electrically dead, so what a
//! register transaction returns is entirely in the device's hands.  The
//! capability is therefore modeled as a scripted bus: it holds, as plain
//! values, the replies the device gives to successive transactions, and it
//! records every transaction it is asked to perform.  Contracts over the
//! script and the log say exactly which registers the protocol touches, in
//! what order, and what it does with each reply.

use vstd::prelude::*;

verus! {

/// Fault code served when the script holds no further reply: the device has
/// stopped answering altogether.
pub const NO_REPLY_FAULT: u16 = 0xFFFF;

/// One register transaction of the wake-completion protocol.
#[derive(Debug, Clone, Copy, PartialEq, Eq)]
pub enum RegOp {
    /// Read of the identity register.
    ReadDevId,
    /// Read-modify-write of the OTP control register setting the
    /// manual-access-enable bit.
    SetOtpManual,
    /// Write of the OTP address register with the given address.
    SetOtpAddr(u16),
    /// Read-modify-write of the OTP control register setting the
    /// read-trigger bit, which latches the addressed OTP word into the
    /// output data register.
    SetOtpRead,
    /// Read of the OTP output data register.
    ReadOtpData,
    /// Read-modify-write of the OTP control register setting the kick bit,
    /// which copies the latched calibration value into the active analog
    /// bias configuration.
    SetLdoKick,
}

/// An opaque transport-level failure of the register-transaction layer.
/// The protocol forwards such a failure verbatim and never inspects it.
#[derive(Debug, Clone, Copy, PartialEq, Eq)]
pub struct BusFault {
    pub code: u16,
}

/// Ghost view of the capability: the device's scripted replies and the
/// transactions attempted so far, in order.
pub struct BusView {
    pub replies: Seq<Result<u16, BusFault>>,
    pub log: Seq<RegOp>,
}

/// The reply the device gives to the transaction at position `i` of the
/// script: the scripted entry, or a no-reply fault once the script is
/// exhausted.
pub open spec fn script_reply(replies: Seq<Result<u16, BusFault>>, i: int) -> Result<u16, BusFault> {
    if 0 <= i < replies.len() {
        replies[i]
    } else {
        Err(BusFault { code: NO_REPLY_FAULT })
    }
}

/// The register-transaction capability.  Each transaction consumes the next
/// scripted reply and is appended to the log, so the log's length is also
/// the cursor into the script.
pub struct RegisterBus {
    replies: Vec<Result<u16, BusFault>>,
    log: Vec<RegOp>,
}

impl View for RegisterBus {
    type V = BusView;

    closed spec fn view(&self) -> BusView {
        BusView { replies: self.replies@, log: self.log@ }
    }
}

impl RegisterBus {
    /// A fresh capability whose device will answer successive transactions
    /// with `replies`, front first.
    pub fn scripted(replies: Vec<Result<u16, BusFault>>) -> (r: RegisterBus)
        ensures
            r@.replies == replies@,
            r@.log == Seq::<RegOp>::empty(),
    {
        RegisterBus { replies, log: Vec::new() }
    }

    /// The transactions attempted so far, in order.  A transaction that
    /// failed at the transport level was still attempted, so it is here.
    pub fn log(&self) -> (r: &Vec<RegOp>)
        ensures
            r@ == self@.log,
    {
        &self.log
    }

    /// Issue one register transaction.  The script is left untouched — it
    /// is the device's side of the exchange — the transaction is logged,
    /// and the device's next scripted reply is returned.
    pub fn transact(&mut self, op: RegOp) -> (r: Result<u16, BusFault>)
        ensures
            final(self)@.replies == old(self)@.replies,
            final(self)@.log == old(self)@.log.push(op),
            r == script_reply(old(self)@.replies, old(self)@.log.len() as int),
    {
        let i: usize = self.log.len();
        let r = if i < self.replies.len() {
            self.replies[i]
        } else {
            Err(BusFault { code: NO_REPLY_FAULT })
        };
        self.log.push(op);
        r
    }
}

} // verus!
