use dw3000::bus::{BusFault, RegOp, RegisterBus, NO_REPLY_FAULT};
use dw3000::sleeping::{complete_wake, SleepState, DEVICE_RIDTAG, LDO_TUNE_ADDR};
use dw3000::{Error, Sleeping, DW3000};

fn sleeping(replies: Vec<Result<u16, BusFault>>, seq: u8) -> DW3000<Sleeping> {
    DW3000::<Sleeping>::new(RegisterBus::scripted(replies), seq)
}

#[test]
fn scenario_ready_without_calibration() {
    // Identity answers 0xDECA, OTP data reads 0x00: Ready handle, kick never written.
    let radio = sleeping(vec![Ok(0xDECA), Ok(0), Ok(0), Ok(0), Ok(0x00)], 7);
    let ready = radio.finish_wakeup().unwrap_or_else(|_| panic!("wakeup failed"));
    assert_eq!(ready.seq_counter(), 7);
    assert_eq!(
        *ready.ll().log(),
        vec![
            RegOp::ReadDevId,
            RegOp::SetOtpManual,
            RegOp::SetOtpAddr(0x04),
            RegOp::SetOtpRead,
            RegOp::ReadOtpData,
        ]
    );
    assert!(!ready.ll().log().contains(&RegOp::SetLdoKick));
}

#[test]
fn scenario_ready_with_calibration_kick() {
    // Identity answers 0xDECA, OTP data reads 0x17: Ready handle, kick written exactly once.
    let radio = sleeping(vec![Ok(0xDECA), Ok(0), Ok(0), Ok(0), Ok(0x17), Ok(0)], 3);
    let ready = radio.finish_wakeup().unwrap_or_else(|_| panic!("wakeup failed"));
    assert_eq!(
        *ready.ll().log(),
        vec![
            RegOp::ReadDevId,
            RegOp::SetOtpManual,
            RegOp::SetOtpAddr(0x04),
            RegOp::SetOtpRead,
            RegOp::ReadOtpData,
            RegOp::SetLdoKick,
        ]
    );
    let kicks = ready
        .ll()
        .log()
        .iter()
        .filter(|op| **op == RegOp::SetLdoKick)
        .count();
    assert_eq!(kicks, 1);
}

#[test]
fn scenario_still_asleep() {
    // Identity answers 0x0000: the handle is consumed and the outcome is StillAsleep.
    let radio = sleeping(vec![Ok(0x0000)], 0);
    let r = radio.finish_wakeup();
    assert!(matches!(r, Err(Error::StillAsleep)));
}

#[test]
fn identity_mismatch_touches_no_otp_register() {
    // Running the protocol on a bus kept by the caller shows that after a
    // failed liveness gate the identity read was the only transaction.
    let mut bus = RegisterBus::scripted(vec![Ok(0x0000)]);
    let r = complete_wake(&mut bus);
    assert_eq!(r, Err(Error::StillAsleep));
    assert_eq!(*bus.log(), vec![RegOp::ReadDevId]);
}

#[test]
fn near_miss_identity_values_still_asleep() {
    for tag in [0x0000u16, 0xDECB, 0xDEC9, 0xFFFF, 0xCADE] {
        let mut bus = RegisterBus::scripted(vec![Ok(tag)]);
        assert_eq!(complete_wake(&mut bus), Err(Error::StillAsleep));
        assert_eq!(*bus.log(), vec![RegOp::ReadDevId]);
    }
}

#[test]
fn scenario_identity_read_fault_propagated() {
    // The identity read itself fails at the transport level: that fault
    // comes back verbatim and nothing further is executed.
    let mut bus = RegisterBus::scripted(vec![Err(BusFault { code: 9 })]);
    let r = complete_wake(&mut bus);
    assert_eq!(r, Err(Error::Bus(BusFault { code: 9 })));
    assert_eq!(*bus.log(), vec![RegOp::ReadDevId]);

    let radio = sleeping(vec![Err(BusFault { code: 9 })], 1);
    assert!(matches!(
        radio.finish_wakeup(),
        Err(Error::Bus(BusFault { code: 9 }))
    ));
}

#[test]
fn otp_sequence_fault_propagated() {
    // A transport fault in the middle of the OTP readout aborts the
    // procedure right there; the failing write was still attempted.
    let mut bus = RegisterBus::scripted(vec![Ok(0xDECA), Ok(0), Err(BusFault { code: 3 })]);
    let r = complete_wake(&mut bus);
    assert_eq!(r, Err(Error::Bus(BusFault { code: 3 })));
    assert_eq!(
        *bus.log(),
        vec![
            RegOp::ReadDevId,
            RegOp::SetOtpManual,
            RegOp::SetOtpAddr(0x04),
        ]
    );
}

#[test]
fn kick_write_fault_propagated() {
    // A non-zero readout makes the procedure attempt the kick, and a fault
    // on that very write is still forwarded verbatim.
    let mut bus = RegisterBus::scripted(vec![
        Ok(0xDECA),
        Ok(0),
        Ok(0),
        Ok(0),
        Ok(0x05),
        Err(BusFault { code: 4 }),
    ]);
    let r = complete_wake(&mut bus);
    assert_eq!(r, Err(Error::Bus(BusFault { code: 4 })));
    assert_eq!(
        *bus.log(),
        vec![
            RegOp::ReadDevId,
            RegOp::SetOtpManual,
            RegOp::SetOtpAddr(0x04),
            RegOp::SetOtpRead,
            RegOp::ReadOtpData,
            RegOp::SetLdoKick,
        ]
    );
}

#[test]
fn unresponsive_device_is_a_bus_fault() {
    // A device that stops answering altogether is a transport failure, not
    // a silent success.
    let mut bus = RegisterBus::scripted(vec![]);
    let r = complete_wake(&mut bus);
    assert_eq!(r, Err(Error::Bus(BusFault { code: NO_REPLY_FAULT })));
    assert_eq!(*bus.log(), vec![RegOp::ReadDevId]);
}

#[test]
fn max_calibration_value_kicks_once() {
    let radio = sleeping(
        vec![Ok(0xDECA), Ok(0), Ok(0), Ok(0), Ok(0xFFFF), Ok(0)],
        0,
    );
    let ready = radio.finish_wakeup().unwrap_or_else(|_| panic!("wakeup failed"));
    let kicks = ready
        .ll()
        .log()
        .iter()
        .filter(|op| **op == RegOp::SetLdoKick)
        .count();
    assert_eq!(kicks, 1);
}

#[test]
fn sequence_counter_carried_through() {
    for seq in [0u8, 1, 0x7F, 0xFF] {
        let radio = sleeping(vec![Ok(0xDECA), Ok(0), Ok(0), Ok(0), Ok(0)], seq);
        let ready = radio.finish_wakeup().unwrap_or_else(|_| panic!("wakeup failed"));
        assert_eq!(ready.seq_counter(), seq);
    }
}

#[test]
fn hardware_constants_are_exact() {
    assert_eq!(DEVICE_RIDTAG, 0xDECA);
    assert_eq!(LDO_TUNE_ADDR, 0x04);
}

#[test]
fn sleep_state_variants() {
    let timed = SleepState::Sleep(100);
    assert_eq!(timed, SleepState::Sleep(100));
    assert_ne!(timed, SleepState::Sleep(101));
    assert_ne!(timed, SleepState::DeepSleep);
    assert_eq!(SleepState::DeepSleep, SleepState::DeepSleep);
    let copy = timed;
    assert_eq!(copy, timed);
}
