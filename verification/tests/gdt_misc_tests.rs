//! The descriptor table build, the boot-protocol header, and the
//! diagnostic exit codes.

use kernel_core::gdt::{init, Selectors, DOUBLE_FAULT_IST_INDEX};
use kernel_core::multiboot_header::{MultibootHeader, CHECKSUM, FLAGS, MAGIC};
use kernel_core::qemu::{QemuExitCode, QEMU_EXIT_PORT};
use x86_64::structures::tss::TaskStateSegment;

#[test]
fn gdt_build_assigns_the_expected_selectors() {
    let tss: &'static TaskStateSegment = Box::leak(Box::new(TaskStateSegment::new()));
    let (gdt, selectors) = init(tss);
    assert_eq!(
        selectors,
        Selectors {
            ring0_code: 0x08,
            ring3_code: 0x13,
            ring3_data: 0x1b,
            tss: 0x20,
        }
    );
    // The raw table confirms what the wrappers claim: the null entry, the
    // three flat segments, and the two-slot task-state descriptor.
    let raw = gdt.as_raw_slice();
    assert_eq!(raw.len(), 6);
    assert_eq!(raw[0], 0);
    assert_eq!(raw[1], 0x00af9b000000ffff);
    assert_eq!(raw[2], 0x00affb000000ffff);
    assert_eq!(raw[3], 0x00cff3000000ffff);
    assert_eq!(DOUBLE_FAULT_IST_INDEX, 0);
}

#[test]
fn multiboot_header_checksums_to_zero() {
    let h = MultibootHeader::new();
    assert!(h.is_valid());
    assert_eq!(h.magic, MAGIC);
    assert_eq!(h.flags, FLAGS);
    assert_eq!(h.checksum, CHECKSUM);
    assert_eq!(MAGIC as i64 + FLAGS as i64 + CHECKSUM as i64, 0);
    assert_eq!(MAGIC, 0x1BADB002);
    assert_eq!(FLAGS, 3);
}

#[test]
fn tampered_multiboot_header_is_invalid() {
    let bad = MultibootHeader {
        magic: MAGIC,
        flags: FLAGS,
        checksum: 0,
    };
    assert!(!bad.is_valid());
    let wrong_magic = MultibootHeader {
        magic: 0,
        flags: FLAGS,
        checksum: CHECKSUM,
    };
    assert!(!wrong_magic.is_valid());
}

#[test]
fn qemu_exit_codes() {
    assert_eq!(QemuExitCode::Success.code(), 0x10);
    assert_eq!(QemuExitCode::Failed.code(), 0x11);
    assert_eq!(QEMU_EXIT_PORT, 0xf4);
}
