use rustsbi_qemu::context::Context;
use rustsbi_qemu::trap::{apply_ecall_result, collect_ecall, decode_mcause, route_timer, Cause};
use rustsbi_qemu::Supervisor;

#[test]
fn decode_tells_the_four_kinds_apart() {
    assert_eq!(decode_mcause(9), Cause::SupervisorEcall);
    assert_eq!(decode_mcause(2), Cause::IllegalInstruction);
    assert_eq!(decode_mcause(0x8000_0000_0000_0007), Cause::MachineTimer);
    // A supervisor timer interrupt is not ours to service.
    assert_eq!(decode_mcause(0x8000_0000_0000_0005), Cause::Other);
    // A load page fault is delegated, and terminal if it still arrives.
    assert_eq!(decode_mcause(13), Cause::Other);
    // Exception code 7 is not the timer: the interrupt bit matters.
    assert_eq!(decode_mcause(7), Cause::Other);
}

#[test]
fn timer_reroute_clears_mtip_sets_stip_keeps_the_rest() {
    assert_eq!(route_timer(0x80), 0x20);
    assert_eq!(route_timer(0x00), 0x20);
    assert_eq!(route_timer(0xA0), 0x20);
    // Software- and external-interrupt bits ride through untouched.
    assert_eq!(route_timer(0x888), 0x828);
    assert_eq!(route_timer(0x2AA), 0x22A);
}

fn entry_context() -> Context {
    // Hart 0 enters the payload at its load address with an opaque word.
    Context::new(0, &Supervisor::new(0x8020_0000, 0x2333))
}

#[test]
fn entry_context_matches_the_payload_contract() {
    let c = entry_context();
    assert_eq!(c.mepc, 0x8020_0000);
    assert_eq!(c.a(0), 0);
    assert_eq!(c.a(1), 0x2333);
    for i in 0..31 {
        if i != 9 && i != 10 {
            assert_eq!(c.x[i], 0);
        }
    }
}

#[test]
fn base_ecall_gets_its_result_and_resumes_after_the_ecall() {
    let mut c = entry_context();
    // The payload asks the Base extension for the spec version.
    *c.a_mut(7) = 0x10;
    *c.a_mut(6) = 0;
    let mepc_before = c.mepc;
    let exit = apply_ecall_result(&mut c, 0, 0x0100_0000);
    assert!(!exit);
    assert_eq!(c.a(0), 0);
    assert_eq!(c.a(1), 0x0100_0000);
    assert_eq!(c.mepc, mepc_before + 4);
}

#[test]
fn successful_hart_stop_ends_the_loop() {
    let mut c = entry_context();
    *c.a_mut(7) = 0x48534D;
    *c.a_mut(6) = 1;
    let exit = apply_ecall_result(&mut c, 0, 0);
    assert!(exit);
}

#[test]
fn failed_hart_stop_does_not_end_the_loop() {
    let mut c = entry_context();
    *c.a_mut(7) = 0x48534D;
    *c.a_mut(6) = 1;
    let exit = apply_ecall_result(&mut c, usize::MAX - 2, 0);
    assert!(!exit);
    assert_eq!(c.a(0), usize::MAX - 2);
}

#[test]
fn non_retentive_suspend_ends_the_loop_retentive_does_not() {
    let mut c = entry_context();
    *c.a_mut(7) = 0x48534D;
    *c.a_mut(6) = 3;
    *c.a_mut(0) = 0x8000_0000;
    assert!(apply_ecall_result(&mut c, 0, 0));

    let mut c = entry_context();
    *c.a_mut(7) = 0x48534D;
    *c.a_mut(6) = 3;
    *c.a_mut(0) = 0;
    assert!(!apply_ecall_result(&mut c, 0, 0));
}

#[test]
fn non_hsm_calls_never_end_the_loop() {
    let mut c = entry_context();
    *c.a_mut(7) = 0x54494D45;
    *c.a_mut(6) = 1;
    assert!(!apply_ecall_result(&mut c, 0, 0));
}

#[test]
fn collect_reads_the_argument_registers() {
    let mut c = entry_context();
    for n in 0..6 {
        *c.a_mut(n) = 100 + n;
    }
    *c.a_mut(6) = 7;
    *c.a_mut(7) = 0x10;
    let args = collect_ecall(&c);
    assert_eq!(args.extension, 0x10);
    assert_eq!(args.function, 7);
    assert_eq!(
        [args.p0, args.p1, args.p2, args.p3, args.p4, args.p5],
        [100, 101, 102, 103, 104, 105]
    );
}

#[test]
fn mepc_advance_wraps_at_the_top_of_the_address_space() {
    let mut c = entry_context();
    c.mepc = usize::MAX - 1;
    apply_ecall_result(&mut c, 0, 0);
    assert_eq!(c.mepc, 2);
}

#[test]
fn delegation_mask_keeps_three_classes_for_m() {
    let mask = rustsbi_qemu::trap::medeleg_value();
    assert_eq!(mask, !0xA04usize);
    assert_eq!(mask & 0x4, 0);
    assert_eq!(mask & 0x200, 0);
    assert_eq!(mask & 0x800, 0);
    // Every other exception class stays delegated to S.
    assert_eq!(mask | 0xA04, usize::MAX);
}
