//! The interrupt-controller write scripts and the timer configuration.

use kernel_core::pic::{
    end_interrupt, init, standard_pair, Pic, PicPair, PortWrite, PIC_1_OFFSET, PIC_2_OFFSET,
};
use kernel_core::pit;

fn pw(port: u16, value: u8) -> PortWrite {
    PortWrite { port, value }
}

#[test]
fn eoi_primary_range_acknowledges_primary_once() {
    // A vector in the primary controller's window: exactly one
    // acknowledgement, to the primary's command port.
    for id in [0x20u8, 0x24, 0x27] {
        let w = end_interrupt(id);
        assert_eq!(w, vec![pw(0x20, 0x20)]);
    }
}

#[test]
fn eoi_secondary_range_acknowledges_both_secondary_first() {
    for id in [0x28u8, 0x2b, 0x2f] {
        let w = end_interrupt(id);
        assert_eq!(w, vec![pw(0xa0, 0x20), pw(0x20, 0x20)]);
    }
}

#[test]
fn eoi_other_vectors_acknowledge_nothing() {
    for id in [0u8, 3, 0x1f, 0x30, 0x40, 0xff] {
        let w = end_interrupt(id);
        assert!(w.is_empty());
    }
}

#[test]
fn standard_pair_ports_and_offsets() {
    let p = standard_pair();
    assert_eq!(p.pic_1, Pic::new(0x20, 0x21, PIC_1_OFFSET));
    assert_eq!(p.pic_2, Pic::new(0xa0, 0xa1, PIC_2_OFFSET));
    assert_eq!(PIC_1_OFFSET, 0x20);
    assert_eq!(PIC_2_OFFSET, 0x28);
}

#[test]
fn remap_handshake_write_sequence() {
    // The four-step handshake with a settling write after each step, then
    // the saved masks restored.
    let w = init(0xaa, 0x55);
    let expected = vec![
        pw(0x20, 0x11),
        pw(0x80, 0),
        pw(0xa0, 0x11),
        pw(0x80, 0),
        pw(0x21, 0x20),
        pw(0x80, 0),
        pw(0xa1, 0x28),
        pw(0x80, 0),
        pw(0x21, 4),
        pw(0x80, 0),
        pw(0xa1, 2),
        pw(0x80, 0),
        pw(0x21, 1),
        pw(0x80, 0),
        pw(0xa1, 1),
        pw(0x80, 0),
        pw(0x21, 0xaa),
        pw(0xa1, 0x55),
    ];
    assert_eq!(w, expected);
}

#[test]
fn eoi_respects_custom_offsets() {
    let p = PicPair::new(Pic::new(0x20, 0x21, 0x40), Pic::new(0xa0, 0xa1, 0x48));
    assert_eq!(p.end_interrupt(0x41), vec![pw(0x20, 0x20)]);
    assert_eq!(p.end_interrupt(0x4f), vec![pw(0xa0, 0x20), pw(0x20, 0x20)]);
    assert!(p.end_interrupt(0x50).is_empty());
    assert!(p.end_interrupt(0x28).is_empty());
}

#[test]
fn pit_programs_channel_zero_at_100_hz() {
    // Mode byte 0x34 on the command port, then the reload value
    // 1193182 / 100 = 11931 = 0x2e9b, low byte first.
    let w = pit::init();
    assert_eq!(
        w,
        vec![pw(0x43, 0x34), pw(0x40, 0x9b), pw(0x40, 0x2e)]
    );
}
