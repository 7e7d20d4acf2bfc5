//! The wake-completion protocol: the strictly ordered sequence of register
//! transactions that confirms the device has resumed and conditionally
//! restores its analog bias calibration.

use vstd::prelude::*;

use crate::bus::{script_reply, BusFault, RegOp, RegisterBus};
use crate::{Ready, Sleeping, DW3000};

verus! {

/// The tag the identity register answers with once the device is
/// electrically responsive.  Hardware-defined; not tunable.
pub const DEVICE_RIDTAG: u16 = 0xDECA;

/// OTP address of the LDO tuning value, the one calibration datum this
/// protocol reads.  Hardware-defined; not tunable.
pub const LDO_TUNE_ADDR: u16 = 0x04;

/// This enum represents the different SleepStates the device can be in
///
/// While the IC is in the SLEEP state, the external system should avoid
/// applying power to GPIO, SPICLK or SPIMISO pins as this will cause an
/// increase in the leakage current.
/// While device is in the SLEEP state the SPI communication is not possible.
#[derive(Debug, PartialEq, Eq, Copy, Clone)]
pub enum SleepState {
    /// Normal sleep
    /// Parameter 0 is written to SLEEP_TIM
    /// Unit is not fixed, as the clock speed of the LF RC is changeable
    Sleep(u16),
    /// Deep sleep, wake up only with WAKE pin or CS pin
    DeepSleep,
}

/// The reply the protocol sees at its step `i` when it starts with the
/// script cursor at `c`.
pub open spec fn wake_reply(replies: Seq<Result<u16, BusFault>>, c: int, i: int) -> Result<
    u16,
    BusFault,
> {
    script_reply(replies, c + i)
}

/// The liveness gate passes exactly when the identity register answers, and
/// answers with the expected tag.
pub open spec fn identity_confirmed(replies: Seq<Result<u16, BusFault>>, c: int) -> bool {
    wake_reply(replies, c, 0) == Ok::<u16, BusFault>(DEVICE_RIDTAG)
}

/// The exact sequence of register transactions the wake-completion
/// procedure issues, as a function of the device's replies.  The procedure
/// stops at the first reply that ends it: an identity answer other than
/// [`DEVICE_RIDTAG`], or a transport fault; the failing transaction itself
/// was still attempted, so it is part of the sequence.  The kick is issued
/// only for a non-zero calibration readout.
pub open spec fn wake_ops(replies: Seq<Result<u16, BusFault>>, c: int) -> Seq<RegOp> {
    if !identity_confirmed(replies, c) {
        seq![RegOp::ReadDevId]
    } else if wake_reply(replies, c, 1) is Err {
        seq![RegOp::ReadDevId, RegOp::SetOtpManual]
    } else if wake_reply(replies, c, 2) is Err {
        seq![RegOp::ReadDevId, RegOp::SetOtpManual, RegOp::SetOtpAddr(LDO_TUNE_ADDR)]
    } else if wake_reply(replies, c, 3) is Err {
        seq![
            RegOp::ReadDevId,
            RegOp::SetOtpManual,
            RegOp::SetOtpAddr(LDO_TUNE_ADDR),
            RegOp::SetOtpRead,
        ]
    } else if wake_reply(replies, c, 4) is Err || wake_reply(replies, c, 4)->Ok_0 == 0 {
        seq![
            RegOp::ReadDevId,
            RegOp::SetOtpManual,
            RegOp::SetOtpAddr(LDO_TUNE_ADDR),
            RegOp::SetOtpRead,
            RegOp::ReadOtpData,
        ]
    } else {
        seq![
            RegOp::ReadDevId,
            RegOp::SetOtpManual,
            RegOp::SetOtpAddr(LDO_TUNE_ADDR),
            RegOp::SetOtpRead,
            RegOp::ReadOtpData,
            RegOp::SetLdoKick,
        ]
    }
}

/// The outcome of the wake-completion procedure: `Ok` when every issued
/// transaction went through and the identity matched; `StillAsleep` when
/// the identity register answered with the wrong tag; otherwise the first
/// transport fault, forwarded verbatim.
pub open spec fn wake_result(replies: Seq<Result<u16, BusFault>>, c: int) -> Result<(), crate::Error> {
    if wake_reply(replies, c, 0) is Err {
        Err(crate::Error::Bus(wake_reply(replies, c, 0)->Err_0))
    } else if wake_reply(replies, c, 0)->Ok_0 != DEVICE_RIDTAG {
        Err(crate::Error::StillAsleep)
    } else if wake_reply(replies, c, 1) is Err {
        Err(crate::Error::Bus(wake_reply(replies, c, 1)->Err_0))
    } else if wake_reply(replies, c, 2) is Err {
        Err(crate::Error::Bus(wake_reply(replies, c, 2)->Err_0))
    } else if wake_reply(replies, c, 3) is Err {
        Err(crate::Error::Bus(wake_reply(replies, c, 3)->Err_0))
    } else if wake_reply(replies, c, 4) is Err {
        Err(crate::Error::Bus(wake_reply(replies, c, 4)->Err_0))
    } else if wake_reply(replies, c, 4)->Ok_0 != 0 && wake_reply(replies, c, 5) is Err {
        Err(crate::Error::Bus(wake_reply(replies, c, 5)->Err_0))
    } else {
        Ok(())
    }
}

/// When success is owed: the identity answers with the expected tag, the
/// three OTP-control writes and the data read go through, and — only when
/// the readout is non-zero — so does the kick.
pub open spec fn wake_succeeds(replies: Seq<Result<u16, BusFault>>, c: int) -> bool {
    &&& identity_confirmed(replies, c)
    &&& wake_reply(replies, c, 1) is Ok
    &&& wake_reply(replies, c, 2) is Ok
    &&& wake_reply(replies, c, 3) is Ok
    &&& wake_reply(replies, c, 4) is Ok
    &&& (wake_reply(replies, c, 4)->Ok_0 == 0 || wake_reply(replies, c, 5) is Ok)
}

/// Runs the wake-completion protocol on the register-transaction
/// capability: the liveness gate on the identity register, the OTP readout
/// of the LDO tuning value, and the conditional calibration kick.
pub fn complete_wake(ll: &mut RegisterBus) -> (r: Result<(), crate::Error>)
    ensures
        final(ll)@.replies == old(ll)@.replies,
        final(ll)@.log == old(ll)@.log + wake_ops(old(ll)@.replies, old(ll)@.log.len() as int),
        r == wake_result(old(ll)@.replies, old(ll)@.log.len() as int),
        r is Ok <==> wake_succeeds(old(ll)@.replies, old(ll)@.log.len() as int),
{
    let ghost s = old(ll)@.replies;
    let ghost c = old(ll)@.log.len() as int;

    // Let's check that we're actually awake now.  This is the sole liveness
    // gate; no other register is trusted before it passes.
    match ll.transact(RegOp::ReadDevId) {
        Err(f) => {
            proof {
                assert(ll@.log =~= old(ll)@.log + wake_ops(s, c));
            }
            return Err(crate::Error::Bus(f));
        },
        Ok(ridtag) => {
            if ridtag != DEVICE_RIDTAG {
                // Oh dear... We have not woken up!
                proof {
                    assert(ll@.log =~= old(ll)@.log + wake_ops(s, c));
                }
                return Err(crate::Error::StillAsleep);
            }
        },
    }

    // Readout `LDO_TUNE` from OTP to see whether it is non-zero: only
    // address 0x04 is of interest, as it is what the kick copies to the
    // configuration.
    if let Err(f) = ll.transact(RegOp::SetOtpManual) {
        proof {
            assert(ll@.log =~= old(ll)@.log + wake_ops(s, c));
        }
        return Err(crate::Error::Bus(f));
    }
    if let Err(f) = ll.transact(RegOp::SetOtpAddr(LDO_TUNE_ADDR)) {
        proof {
            assert(ll@.log =~= old(ll)@.log + wake_ops(s, c));
        }
        return Err(crate::Error::Bus(f));
    }
    if let Err(f) = ll.transact(RegOp::SetOtpRead) {
        proof {
            assert(ll@.log =~= old(ll)@.log + wake_ops(s, c));
        }
        return Err(crate::Error::Bus(f));
    }
    let ldo_low = match ll.transact(RegOp::ReadOtpData) {
        Err(f) => {
            proof {
                assert(ll@.log =~= old(ll)@.log + wake_ops(s, c));
            }
            return Err(crate::Error::Bus(f));
        },
        Ok(value) => value,
    };

    // A zero value means the chip was never factory-calibrated for this
    // parameter: kicking would copy a meaningless zero into the bias
    // configuration, so the kick is skipped entirely.
    if ldo_low != 0 {
        if let Err(f) = ll.transact(RegOp::SetLdoKick) {
            proof {
                assert(ll@.log =~= old(ll)@.log + wake_ops(s, c));
            }
            return Err(crate::Error::Bus(f));
        }
    }

    proof {
        assert(ll@.log =~= old(ll)@.log + wake_ops(s, c));
    }
    Ok(())
}

impl DW3000<Sleeping> {
    /// The handle the external sleep-entry collaborator leaves behind: a
    /// sleeping device reachable through `ll`, carrying the sequence
    /// counter `seq`.
    pub fn new(ll: RegisterBus, seq: u8) -> (r: DW3000<Sleeping>)
        ensures
            r@.seq == seq,
            r@.bus == ll@,
    {
        DW3000 { ll, seq, state: Sleeping }
    }

    /// Configures the radio after sleep.  This function needs to be called
    /// once the device has been woken, in order to reconfigure it.
    ///
    /// The caller must already have performed the physical wake trigger and
    /// waited for the device's clocks to stabilize; this procedure only
    /// verifies the outcome.  It consumes the handle either way: on success
    /// the `Ready` handle carries the same sequence counter and the same
    /// register-transaction capability, advanced by exactly the protocol's
    /// transactions; on failure no handle of either phase remains.
    pub fn finish_wakeup(self) -> (r: Result<DW3000<Ready>, crate::Error>)
        ensures
            r is Ok <==> wake_succeeds(self@.bus.replies, self@.bus.log.len() as int),
            r matches Err(e) ==> wake_result(self@.bus.replies, self@.bus.log.len() as int)
                == Err::<(), crate::Error>(e),
            r matches Ok(ready) ==> ready@.seq == self@.seq
                && ready@.bus.replies == self@.bus.replies
                && ready@.bus.log == self@.bus.log + wake_ops(
                self@.bus.replies,
                self@.bus.log.len() as int,
            ),
    {
        let DW3000 { mut ll, seq, state: _ } = self;
        match complete_wake(&mut ll) {
            Ok(()) => Ok(DW3000 { ll, seq, state: Ready }),
            Err(e) => Err(e),
        }
    }
}

/// Liveness gate correctness: whenever the identity register answers with
/// any tag other than [`DEVICE_RIDTAG`], the procedure's outcome is
/// `StillAsleep` and its one transaction is the identity read — no OTP
/// register is touched.
pub proof fn lemma_liveness_gate(replies: Seq<Result<u16, BusFault>>, c: int, ridtag: u16)
    requires
        script_reply(replies, c) == Ok::<u16, BusFault>(ridtag),
        ridtag != DEVICE_RIDTAG,
    ensures
        wake_result(replies, c) == Err::<(), crate::Error>(crate::Error::StillAsleep),
        wake_ops(replies, c) == seq![RegOp::ReadDevId],
{
}

/// Calibration conditionality: once the identity matches and the OTP
/// readout is reached, a zero readout suppresses the kick entirely, and a
/// non-zero readout makes the procedure issue the kick exactly once — after
/// exactly one manual-enable write, one address write of
/// [`LDO_TUNE_ADDR`], and one read-trigger write, in that order.
pub proof fn lemma_calibration_conditionality(
    replies: Seq<Result<u16, BusFault>>,
    c: int,
    ldo_low: u16,
)
    requires
        script_reply(replies, c) == Ok::<u16, BusFault>(DEVICE_RIDTAG),
        script_reply(replies, c + 1) is Ok,
        script_reply(replies, c + 2) is Ok,
        script_reply(replies, c + 3) is Ok,
        script_reply(replies, c + 4) == Ok::<u16, BusFault>(ldo_low),
    ensures
        ldo_low == 0 ==> wake_ops(replies, c) == seq![
            RegOp::ReadDevId,
            RegOp::SetOtpManual,
            RegOp::SetOtpAddr(LDO_TUNE_ADDR),
            RegOp::SetOtpRead,
            RegOp::ReadOtpData,
        ],
        ldo_low != 0 ==> wake_ops(replies, c) == seq![
            RegOp::ReadDevId,
            RegOp::SetOtpManual,
            RegOp::SetOtpAddr(LDO_TUNE_ADDR),
            RegOp::SetOtpRead,
            RegOp::ReadOtpData,
            RegOp::SetLdoKick,
        ],
{
}

/// No retry on the same handle: whenever success is not owed, the outcome
/// is an error, never a handle.  Together with `finish_wakeup` consuming
/// its `Sleeping` handle, a failed invocation leaves no usable handle of
/// either phase behind.
pub proof fn lemma_failure_yields_no_handle(replies: Seq<Result<u16, BusFault>>, c: int)
    requires
        !wake_succeeds(replies, c),
    ensures
        wake_result(replies, c) is Err,
{
}

} // verus!
