//! The vector table bindings and the interrupt-handler decision logic.

use kernel_core::event::{UiEvent, UiEventQueue};
use kernel_core::idt::{
    fault_response, handle_scancode, init, spurious_is_real, FaultResponse, Gate, IdtBuilder,
    InterruptIndex,
};
use kernel_core::vga::{Color, ColorCode, Writer};

#[test]
fn init_binds_every_handled_exception_and_hardware_vector() {
    let t = init();
    let bound: Vec<u8> = vec![
        0, 1, 2, 3, 4, 5, 6, 7, 8, 10, 11, 12, 13, 14, 16, 17, 18, 19, 20, 30, 32, 33, 39,
    ];
    for v in 0..=255u8 {
        assert_eq!(t.is_bound(v), bound.contains(&v), "vector {}", v);
    }
}

#[test]
fn only_double_fault_runs_on_the_dedicated_stack() {
    let t = init();
    for v in 0..=255u8 {
        if let Some(gate) = t.entry(v) {
            if v == 8 {
                assert_eq!(gate.ist_index, Some(0));
            } else {
                assert_eq!(gate.ist_index, None);
            }
        }
    }
}

#[test]
fn init_binds_hardware_vectors_to_their_handlers() {
    let t = init();
    assert_eq!(
        t.entry(32),
        Some(Gate {
            handler: InterruptIndex::Timer,
            ist_index: None
        })
    );
    assert_eq!(
        t.entry(33),
        Some(Gate {
            handler: InterruptIndex::Keyboard,
            ist_index: None
        })
    );
    assert_eq!(
        t.entry(39),
        Some(Gate {
            handler: InterruptIndex::MaybeSpurious,
            ist_index: None
        })
    );
}

#[test]
fn fresh_builder_binds_nothing() {
    let t = IdtBuilder::new();
    for v in 0..=255u8 {
        assert!(!t.is_bound(v));
    }
}

#[test]
fn set_handler_binds_one_vector() {
    let mut t = IdtBuilder::new();
    t.set_handler(
        3,
        Gate {
            handler: InterruptIndex::Breakpoint,
            ist_index: None,
        },
    );
    assert!(t.is_bound(3));
    assert!(!t.is_bound(2));
    assert!(!t.is_bound(4));
}

#[test]
fn vector_numbers_match_the_architecture() {
    assert_eq!(InterruptIndex::Divide.vector(), 0);
    assert_eq!(InterruptIndex::DoubleFault.vector(), 8);
    assert_eq!(InterruptIndex::GeneralProtectionFault.vector(), 13);
    assert_eq!(InterruptIndex::PageFault.vector(), 14);
    assert_eq!(InterruptIndex::Timer.vector(), 32);
    assert_eq!(InterruptIndex::Keyboard.vector(), 33);
    assert_eq!(InterruptIndex::MaybeSpurious.vector(), 39);
}

#[test]
fn scancode_a_prints_a_and_queues_nothing() {
    // Scan code 0x1e with no queued scroll event: exactly the character
    // 'a' printed and zero queue entries.
    let mut q = UiEventQueue::new();
    let mut w = Writer::new(ColorCode::new(Color::White, Color::Black), 30);
    let action = handle_scancode(0x1e);
    if let Some(e) = action.event {
        q.push(e);
    }
    if let Some(b) = action.key {
        w.write_byte(b);
    }
    assert_eq!(action.key, Some(b'a'));
    assert_eq!(q.len(), 0);
    assert_eq!(w.get_line(0)[0].ascii_char, b'a');
    assert_eq!(w.column_pos(), 1);
}

#[test]
fn scancode_k_prints_k_and_queues_scroll_up() {
    // Scan code 0x25: the character 'k' printed and exactly one scroll-up
    // event enqueued.
    let mut q = UiEventQueue::new();
    let mut w = Writer::new(ColorCode::new(Color::White, Color::Black), 30);
    let action = handle_scancode(0x25);
    if let Some(e) = action.event {
        q.push(e);
    }
    if let Some(b) = action.key {
        w.write_byte(b);
    }
    assert_eq!(action.key, Some(b'k'));
    assert_eq!(q.len(), 1);
    assert_eq!(q.pop(), Some(UiEvent::ScrollUp));
    assert_eq!(q.pop(), None);
    assert_eq!(w.get_line(0)[0].ascii_char, b'k');
}

#[test]
fn scancode_j_queues_scroll_down() {
    let action = handle_scancode(0x24);
    assert_eq!(action.key, Some(b'j'));
    assert_eq!(action.event, Some(UiEvent::ScrollDown));
}

#[test]
fn scancode_table_maps_rows_of_keys() {
    assert_eq!(handle_scancode(0x02).key, Some(b'1'));
    assert_eq!(handle_scancode(0x0b).key, Some(b'0'));
    assert_eq!(handle_scancode(0x10).key, Some(b'q'));
    assert_eq!(handle_scancode(0x19).key, Some(b'p'));
    assert_eq!(handle_scancode(0x1e).key, Some(b'a'));
    assert_eq!(handle_scancode(0x26).key, Some(b'l'));
    assert_eq!(handle_scancode(0x2c).key, Some(b'z'));
    assert_eq!(handle_scancode(0x32).key, Some(b'm'));
    assert_eq!(handle_scancode(0x39).key, Some(b' '));
    assert_eq!(handle_scancode(0x0f).key, Some(b' '));
}

#[test]
fn unrecognized_scancodes_do_nothing() {
    for code in [0x00u8, 0x01, 0x0c, 0x1d, 0x33, 0x60, 0xaa, 0xff] {
        let action = handle_scancode(code);
        assert_eq!(action.key, None);
        assert_eq!(action.event, None);
    }
}

#[test]
fn spurious_interrupt_test_reads_bit_seven() {
    assert!(spurious_is_real(0x80));
    assert!(spurious_is_real(0xff));
    assert!(!spurious_is_real(0x7f));
    assert!(!spurious_is_real(0x00));
}

#[test]
fn fault_responses_follow_the_taxonomy() {
    assert_eq!(
        fault_response(InterruptIndex::DoubleFault),
        FaultResponse::LogAndHalt
    );
    assert_eq!(
        fault_response(InterruptIndex::GeneralProtectionFault),
        FaultResponse::LogAndHalt
    );
    assert_eq!(
        fault_response(InterruptIndex::MachineCheck),
        FaultResponse::LogAndHalt
    );
    assert_eq!(
        fault_response(InterruptIndex::PageFault),
        FaultResponse::LogAndHalt
    );
    assert_eq!(
        fault_response(InterruptIndex::Divide),
        FaultResponse::LogAndResume
    );
    assert_eq!(
        fault_response(InterruptIndex::Breakpoint),
        FaultResponse::LogAndResume
    );
    assert_eq!(
        fault_response(InterruptIndex::SimdFloatingPoint),
        FaultResponse::SilentResume
    );
    assert_eq!(
        fault_response(InterruptIndex::AlignmentCheck),
        FaultResponse::SilentResume
    );
}
