use rustsbi_qemu::hsm::{HartState, Hsm, SuspendKind};
use rustsbi_qemu::sbi::SbiError;

fn boot_table(smp: usize) -> Hsm {
    Hsm::new(smp, 0, 0x8020_0000, 0x1234)
}

#[test]
fn boot_hart_starts_pending_others_stopped() {
    let h = boot_table(4);
    assert_eq!(
        h.states[0],
        HartState::StartPending { start_addr: 0x8020_0000, opaque: 0x1234 }
    );
    for i in 1..4 {
        assert_eq!(h.states[i], HartState::Stopped);
        assert!(!h.msip[i]);
    }
}

#[test]
fn start_out_of_range_is_invalid_param_without_side_effects() {
    let mut h = boot_table(2);
    let before_states = h.states.clone();
    let before_msip = h.msip.clone();
    let r = h.hart_start(2, 0x8040_0000, 0);
    assert_eq!(r, Err(SbiError::InvalidParam));
    assert_eq!(h.states, before_states);
    assert_eq!(h.msip, before_msip);
}

#[test]
fn start_already_started_is_already_available() {
    let mut h = boot_table(2);
    let record = h.take_start(0);
    assert_eq!(record, Some((0x8020_0000, 0x1234)));
    assert_eq!(h.states[0], HartState::Started);
    let r = h.hart_start(0, 0x8040_0000, 0);
    assert_eq!(r, Err(SbiError::AlreadyAvailable));
    assert_eq!(h.states[0], HartState::Started);
}

#[test]
fn racing_starts_one_wins_one_already_available() {
    let mut h = boot_table(2);
    let first = h.hart_start(1, 0x8040_0000, 0xABCD);
    let second = h.hart_start(1, 0x9999_0000, 0xFFFF);
    assert_eq!(first, Ok(()));
    assert_eq!(second, Err(SbiError::AlreadyAvailable));
    assert_eq!(
        h.states[1],
        HartState::StartPending { start_addr: 0x8040_0000, opaque: 0xABCD }
    );
}

#[test]
fn secondary_start_rendezvous() {
    let mut h = boot_table(2);
    assert_eq!(h.hart_start(1, 0x8040_0000, 0xABCD), Ok(()));
    assert!(h.msip[1]);
    let record = h.take_start(1);
    assert_eq!(record, Some((0x8040_0000, 0xABCD)));
    assert_eq!(h.states[1], HartState::Started);
    assert!(!h.msip[1]);
}

#[test]
fn stopped_hart_woken_without_record_gets_none() {
    let mut h = boot_table(2);
    let record = h.take_start(1);
    assert_eq!(record, None);
    assert_eq!(h.states[1], HartState::Stopped);
    assert!(!h.msip[1]);
}

#[test]
fn secondary_stop_reports_stopped() {
    let mut h = boot_table(2);
    assert_eq!(h.hart_start(1, 0x8040_0000, 0xABCD), Ok(()));
    h.take_start(1);
    h.hart_stop(1);
    assert_eq!(h.states[1], HartState::Stopped);
    assert!(!h.msip[1]);
    assert_eq!(h.hart_get_status(1), Ok(1));
}

#[test]
fn non_retentive_suspend_then_fresh_start() {
    let mut h = boot_table(2);
    h.hart_start(1, 0x8040_0000, 0xABCD).unwrap();
    h.take_start(1);
    h.hart_suspend(1, SuspendKind::NonRetentive);
    assert_eq!(
        h.states[1],
        HartState::SuspendPending { kind: SuspendKind::NonRetentive }
    );
    h.suspend_complete(1);
    assert_eq!(h.states[1], HartState::Stopped);
    assert_eq!(h.hart_start(1, 0x8050_0000, 0), Ok(()));
    assert_eq!(h.take_start(1), Some((0x8050_0000, 0)));
    assert_eq!(h.states[1], HartState::Started);
}

#[test]
fn retentive_suspend_resumes_in_place() {
    let mut h = boot_table(2);
    h.hart_start(1, 0x8040_0000, 0).unwrap();
    h.take_start(1);
    h.hart_suspend(1, SuspendKind::Retentive);
    h.suspend_complete(1);
    assert_eq!(h.states[1], HartState::Suspended);
    assert_eq!(h.hart_get_status(1), Ok(4));
    h.resume(1);
    assert_eq!(h.states[1], HartState::Started);
    assert_eq!(h.hart_get_status(1), Ok(0));
}

#[test]
fn status_codes_cover_every_state() {
    let mut h = boot_table(3);
    assert_eq!(h.hart_get_status(0), Ok(2));
    assert_eq!(h.hart_get_status(1), Ok(1));
    assert_eq!(h.hart_get_status(3), Err(SbiError::InvalidParam));
    h.take_start(0);
    assert_eq!(h.hart_get_status(0), Ok(0));
    h.hart_suspend(0, SuspendKind::Retentive);
    assert_eq!(h.hart_get_status(0), Ok(5));
}

#[test]
fn stop_clears_pending_bit_until_next_start() {
    let mut h = boot_table(2);
    h.hart_start(1, 0x8040_0000, 0).unwrap();
    h.take_start(1);
    h.hart_stop(1);
    assert!(!h.msip[1]);
    // Operations that are not a start aimed at hart 1 leave its bit clear.
    h.hart_get_status(1).unwrap();
    h.suspend_complete(1);
    h.resume(1);
    assert!(!h.msip[1]);
    // A later start re-asserts it.
    h.hart_start(1, 0x8050_0000, 0).unwrap();
    assert!(h.msip[1]);
}

#[test]
fn sbi_error_codes_are_negative_words() {
    assert_eq!(SbiError::Failed.code(), usize::MAX);
    assert_eq!(SbiError::NotSupported.code(), usize::MAX - 1);
    assert_eq!(SbiError::InvalidParam.code(), usize::MAX - 2);
    assert_eq!(SbiError::AlreadyAvailable.code(), usize::MAX - 5);
    assert_eq!(SbiError::InvalidParam.code() as isize, -3);
    assert_eq!(SbiError::AlreadyAvailable.code() as isize, -6);
}

#[test]
fn active_harts_never_outnumber_the_board() {
    let mut h = boot_table(3);
    h.take_start(0);
    h.hart_start(1, 0x8040_0000, 0).unwrap();
    h.hart_start(2, 0x8040_0000, 0).unwrap();
    h.take_start(1);
    h.take_start(2);
    let active = h.states.iter().filter(|s| **s != HartState::Stopped).count();
    assert!(active <= 3);
    assert_eq!(active, 3);
}
