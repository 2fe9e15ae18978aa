use rustsbi_qemu::board::{AddrRange, BoardCell, BoardError, BoardInfo};
use rustsbi_qemu::clint::{msip_addr, msip_in_range, mtime_addr, mtimecmp_addr};
use rustsbi_qemu::dist::{dist_dir, CompileMode};

fn qemu_virt(smp: usize) -> Result<BoardInfo, BoardError> {
    BoardInfo::new(
        vec!["riscv-virtio,qemu".to_string()],
        smp,
        AddrRange::new(0x8000_0000, 0x8800_0000),
        AddrRange::new(0x1000_0000, 0x1000_0100),
        AddrRange::new(0x0200_0000, 0x0201_0000),
        AddrRange::new(0x0010_0000, 0x0010_1000),
    )
}

#[test]
fn a_sound_description_is_sealed_as_given() {
    let b = qemu_virt(2).unwrap();
    assert_eq!(b.smp, 2);
    assert_eq!(b.memory, AddrRange::new(0x8000_0000, 0x8800_0000));
    assert_eq!(b.uart, AddrRange::new(0x1000_0000, 0x1000_0100));
    assert_eq!(b.clint, AddrRange::new(0x0200_0000, 0x0201_0000));
    assert_eq!(b.test, AddrRange::new(0x0010_0000, 0x0010_1000));
    assert_eq!(b.model, vec!["riscv-virtio,qemu".to_string()]);
}

#[test]
fn zero_harts_is_fatal() {
    assert_eq!(qemu_virt(0).unwrap_err(), BoardError::NoHarts);
}

#[test]
fn an_empty_range_is_fatal() {
    let r = BoardInfo::new(
        Vec::new(),
        1,
        AddrRange::new(0x8000_0000, 0x8000_0000),
        AddrRange::new(0x1000_0000, 0x1000_0100),
        AddrRange::new(0x0200_0000, 0x0201_0000),
        AddrRange::new(0x0010_0000, 0x0010_1000),
    );
    assert_eq!(r.unwrap_err(), BoardError::EmptyRange);
}

#[test]
fn overlapping_ranges_are_fatal() {
    let r = BoardInfo::new(
        Vec::new(),
        1,
        AddrRange::new(0x8000_0000, 0x8800_0000),
        AddrRange::new(0x0200_8000, 0x0200_8100),
        AddrRange::new(0x0200_0000, 0x0201_0000),
        AddrRange::new(0x0010_0000, 0x0010_1000),
    );
    assert_eq!(r.unwrap_err(), BoardError::OverlappingRanges);
}

#[test]
fn the_cell_publishes_once() {
    let mut cell = BoardCell::new();
    cell.init(qemu_virt(2).unwrap());
    assert_eq!(cell.get().smp, 2);
    // A second init does not displace the published record.
    cell.init(qemu_virt(4).unwrap());
    assert_eq!(cell.get().smp, 2);
}

#[test]
fn clint_registers_sit_at_their_documented_offsets() {
    let base = 0x0200_0000;
    assert_eq!(msip_addr(base, 0), 0x0200_0000);
    assert_eq!(msip_addr(base, 3), 0x0200_000C);
    assert_eq!(mtimecmp_addr(base, 0), 0x0200_4000);
    assert_eq!(mtimecmp_addr(base, 1), 0x0200_4008);
    assert_eq!(mtime_addr(base), 0x0200_BFF8);
}

#[test]
fn msip_guard_respects_the_ranges_end() {
    let clint = AddrRange::new(0x0200_0000, 0x0200_0010);
    assert!(msip_in_range(&clint, 0));
    assert!(msip_in_range(&clint, 3));
    assert!(!msip_in_range(&clint, 4));
}

#[test]
fn artifacts_land_beside_their_target() {
    assert_eq!(
        dist_dir(&CompileMode::Debug),
        "target/riscv64imac-unknown-none-elf/debug"
    );
    assert_eq!(
        dist_dir(&CompileMode::Release),
        "target/riscv64imac-unknown-none-elf/release"
    );
}
