//! The interrupt vector table and the per-vector handler bindings.
//!
//! The table has exactly 256 entries indexed by vector number. Vectors 0 to
//! 31 belong to CPU-defined exceptions; vectors from 32 up carry the
//! remapped hardware lines. The table is built once at boot: every
//! architecturally defined CPU exception and the two hardware vectors
//! (timer, keyboard) are bound to a handler before interrupts are enabled,
//! and the double-fault entry alone carries a dedicated-stack index, so a
//! fault on a corrupted stack still finds a valid one.
//!
//! This module also holds the decision logic of the handlers themselves:
//! the keyboard scan-code translation, the spurious-interrupt test, and the
//! per-fault response policy.

use vstd::prelude::*;

use crate::event::UiEvent;
use crate::gdt::DOUBLE_FAULT_IST_INDEX;

verus! {

/// Number of entries of the vector table.
pub const IDT_ENTRIES: usize = 256;

/// The interrupt and exception sources the kernel knows, each owning one
/// vector number.
#[allow(missing_docs)]
#[derive(Debug, Clone, Copy, PartialEq, Eq, Structural)]
pub enum InterruptIndex {
    Divide,
    Debug,
    NonMaskable,
    Breakpoint,
    Overflow,
    BoundRangeExceeded,
    InvalidOpcode,
    DeviceNotAvailable,
    DoubleFault,
    CoprocessorSegmentOverrun,
    InvalidTss,
    SegmentNotPresent,
    StackSegmentFault,
    GeneralProtectionFault,
    PageFault,
    Reserved15,
    X87FloatingPoint,
    AlignmentCheck,
    MachineCheck,
    SimdFloatingPoint,
    Virtualization,
    CPProtectionException,
    Reserved22,
    Reserved23,
    Reserved24,
    Reserved25,
    Reserved26,
    Reserved27,
    HypervisorInjectionException,
    VMMCommunicationException,
    SecurityException,
    Reserved31,
    Timer,
    Keyboard,
    MaybeSpurious,
}

impl InterruptIndex {
    /// The vector number of this source: the CPU-defined exception numbers
    /// for vectors 0 to 31, then the remapped hardware lines (the timer on
    /// the primary controller's first line, the keyboard on its second) and
    /// the possibly-spurious vector on its last line.
    pub open spec fn spec_vector(self) -> u8 {
        match self {
            InterruptIndex::Divide => 0,
            InterruptIndex::Debug => 1,
            InterruptIndex::NonMaskable => 2,
            InterruptIndex::Breakpoint => 3,
            InterruptIndex::Overflow => 4,
            InterruptIndex::BoundRangeExceeded => 5,
            InterruptIndex::InvalidOpcode => 6,
            InterruptIndex::DeviceNotAvailable => 7,
            InterruptIndex::DoubleFault => 8,
            InterruptIndex::CoprocessorSegmentOverrun => 9,
            InterruptIndex::InvalidTss => 10,
            InterruptIndex::SegmentNotPresent => 11,
            InterruptIndex::StackSegmentFault => 12,
            InterruptIndex::GeneralProtectionFault => 13,
            InterruptIndex::PageFault => 14,
            InterruptIndex::Reserved15 => 15,
            InterruptIndex::X87FloatingPoint => 16,
            InterruptIndex::AlignmentCheck => 17,
            InterruptIndex::MachineCheck => 18,
            InterruptIndex::SimdFloatingPoint => 19,
            InterruptIndex::Virtualization => 20,
            InterruptIndex::CPProtectionException => 21,
            InterruptIndex::Reserved22 => 22,
            InterruptIndex::Reserved23 => 23,
            InterruptIndex::Reserved24 => 24,
            InterruptIndex::Reserved25 => 25,
            InterruptIndex::Reserved26 => 26,
            InterruptIndex::Reserved27 => 27,
            InterruptIndex::HypervisorInjectionException => 28,
            InterruptIndex::VMMCommunicationException => 29,
            InterruptIndex::SecurityException => 30,
            InterruptIndex::Reserved31 => 31,
            InterruptIndex::Timer => 32,
            InterruptIndex::Keyboard => 33,
            InterruptIndex::MaybeSpurious => 39,
        }
    }

    /// The vector number of this source.
    pub fn vector(self) -> (v: u8)
        ensures
            v == self.spec_vector(),
    {
        match self {
            InterruptIndex::Divide => 0,
            InterruptIndex::Debug => 1,
            InterruptIndex::NonMaskable => 2,
            InterruptIndex::Breakpoint => 3,
            InterruptIndex::Overflow => 4,
            InterruptIndex::BoundRangeExceeded => 5,
            InterruptIndex::InvalidOpcode => 6,
            InterruptIndex::DeviceNotAvailable => 7,
            InterruptIndex::DoubleFault => 8,
            InterruptIndex::CoprocessorSegmentOverrun => 9,
            InterruptIndex::InvalidTss => 10,
            InterruptIndex::SegmentNotPresent => 11,
            InterruptIndex::StackSegmentFault => 12,
            InterruptIndex::GeneralProtectionFault => 13,
            InterruptIndex::PageFault => 14,
            InterruptIndex::Reserved15 => 15,
            InterruptIndex::X87FloatingPoint => 16,
            InterruptIndex::AlignmentCheck => 17,
            InterruptIndex::MachineCheck => 18,
            InterruptIndex::SimdFloatingPoint => 19,
            InterruptIndex::Virtualization => 20,
            InterruptIndex::CPProtectionException => 21,
            InterruptIndex::Reserved22 => 22,
            InterruptIndex::Reserved23 => 23,
            InterruptIndex::Reserved24 => 24,
            InterruptIndex::Reserved25 => 25,
            InterruptIndex::Reserved26 => 26,
            InterruptIndex::Reserved27 => 27,
            InterruptIndex::HypervisorInjectionException => 28,
            InterruptIndex::VMMCommunicationException => 29,
            InterruptIndex::SecurityException => 30,
            InterruptIndex::Reserved31 => 31,
            InterruptIndex::Timer => 32,
            InterruptIndex::Keyboard => 33,
            InterruptIndex::MaybeSpurious => 39,
        }
    }
}

/// One bound entry of the vector table: which handler serves the vector,
/// and the dedicated-stack index the handler runs on, if any.
#[derive(Debug, Clone, Copy, PartialEq, Eq)]
pub struct Gate {
    pub handler: InterruptIndex,
    pub ist_index: Option<u16>,
}

/// The vector table under construction: 256 entries, each either unbound
/// or holding a gate.
pub struct IdtBuilder {
    entries: Vec<Option<Gate>>,
}

impl IdtBuilder {
    /// Structural invariant: exactly `IDT_ENTRIES` entries.
    pub closed spec fn wf(self) -> bool {
        self.entries@.len() == IDT_ENTRIES
    }

    /// The 256 entries of the table.
    pub closed spec fn entries_view(self) -> Seq<Option<Gate>> {
        self.entries@
    }

    /// Whether the entry of vector `v` is bound to a handler.
    pub open spec fn is_bound_spec(self, v: int) -> bool {
        self.entries_view()[v] is Some
    }

    /// A table with every vector unbound.
    pub fn new() -> (t: IdtBuilder)
        ensures
            t.wf(),
            forall|v: int| 0 <= v < IDT_ENTRIES ==> t.entries_view()[v] is None,
    {
        let mut entries: Vec<Option<Gate>> = Vec::new();
        while entries.len() < IDT_ENTRIES
            invariant
                entries@.len() <= IDT_ENTRIES,
                forall|v: int| 0 <= v < entries@.len() ==> entries@[v] is None,
            decreases IDT_ENTRIES - entries@.len(),
        {
            entries.push(None);
        }
        IdtBuilder { entries }
    }

    /// Binds vector `vector` to `gate`.
    pub fn set_handler(&mut self, vector: u8, gate: Gate)
        requires
            old(self).wf(),
        ensures
            final(self).wf(),
            final(self).entries_view() == old(self).entries_view().update(
                vector as int,
                Some(gate),
            ),
    {
        self.entries.set(vector as usize, Some(gate));
    }

    /// Whether vector `vector` is bound to a handler.
    pub fn is_bound(&self, vector: u8) -> (r: bool)
        requires
            self.wf(),
        ensures
            r == self.is_bound_spec(vector as int),
    {
        self.entries[vector as usize].is_some()
    }

    /// The entry of vector `vector`.
    pub fn entry(&self, vector: u8) -> (r: Option<Gate>)
        requires
            self.wf(),
        ensures
            r == self.entries_view()[vector as int],
    {
        self.entries[vector as usize]
    }

    /// The finished table as one vector of entries, for loading.
    pub fn into_inner(self) -> (r: Vec<Option<Gate>>)
        ensures
            r@ == self.entries_view(),
    {
        self.entries
    }
}

/// Binds every architecturally defined CPU exception and the hardware
/// vectors, and nothing else. Only the double-fault entry runs on the
/// dedicated stack.
pub open spec fn init_gate(v: int) -> Option<Gate> {
    if v == 0 {
        Some(Gate { handler: InterruptIndex::Divide, ist_index: None })
    } else if v == 1 {
        Some(Gate { handler: InterruptIndex::Debug, ist_index: None })
    } else if v == 2 {
        Some(Gate { handler: InterruptIndex::NonMaskable, ist_index: None })
    } else if v == 3 {
        Some(Gate { handler: InterruptIndex::Breakpoint, ist_index: None })
    } else if v == 4 {
        Some(Gate { handler: InterruptIndex::Overflow, ist_index: None })
    } else if v == 5 {
        Some(Gate { handler: InterruptIndex::BoundRangeExceeded, ist_index: None })
    } else if v == 6 {
        Some(Gate { handler: InterruptIndex::InvalidOpcode, ist_index: None })
    } else if v == 7 {
        Some(Gate { handler: InterruptIndex::DeviceNotAvailable, ist_index: None })
    } else if v == 8 {
        Some(
            Gate { handler: InterruptIndex::DoubleFault, ist_index: Some(DOUBLE_FAULT_IST_INDEX) },
        )
    } else if v == 10 {
        Some(Gate { handler: InterruptIndex::InvalidTss, ist_index: None })
    } else if v == 11 {
        Some(Gate { handler: InterruptIndex::SegmentNotPresent, ist_index: None })
    } else if v == 12 {
        Some(Gate { handler: InterruptIndex::StackSegmentFault, ist_index: None })
    } else if v == 13 {
        Some(Gate { handler: InterruptIndex::GeneralProtectionFault, ist_index: None })
    } else if v == 14 {
        Some(Gate { handler: InterruptIndex::PageFault, ist_index: None })
    } else if v == 16 {
        Some(Gate { handler: InterruptIndex::X87FloatingPoint, ist_index: None })
    } else if v == 17 {
        Some(Gate { handler: InterruptIndex::AlignmentCheck, ist_index: None })
    } else if v == 18 {
        Some(Gate { handler: InterruptIndex::MachineCheck, ist_index: None })
    } else if v == 19 {
        Some(Gate { handler: InterruptIndex::SimdFloatingPoint, ist_index: None })
    } else if v == 20 {
        Some(Gate { handler: InterruptIndex::Virtualization, ist_index: None })
    } else if v == 30 {
        Some(Gate { handler: InterruptIndex::SecurityException, ist_index: None })
    } else if v == 32 {
        Some(Gate { handler: InterruptIndex::Timer, ist_index: None })
    } else if v == 33 {
        Some(Gate { handler: InterruptIndex::Keyboard, ist_index: None })
    } else if v == 39 {
        Some(Gate { handler: InterruptIndex::MaybeSpurious, ist_index: None })
    } else {
        None
    }
}

/// Whether vector `v` is an architecturally defined CPU exception that the
/// kernel handles; the reserved vectors (9, 15, 21 to 29 and 31) are not
/// among them.
pub open spec fn is_cpu_exception(v: int) -> bool {
    ||| v == 0
    ||| v == 1
    ||| v == 2
    ||| v == 3
    ||| v == 4
    ||| v == 5
    ||| v == 6
    ||| v == 7
    ||| v == 8
    ||| v == 10
    ||| v == 11
    ||| v == 12
    ||| v == 13
    ||| v == 14
    ||| v == 16
    ||| v == 17
    ||| v == 18
    ||| v == 19
    ||| v == 20
    ||| v == 30
}

/// After initialization, a vector is bound exactly when it is a handled
/// CPU exception or one of the hardware vectors (timer, keyboard, and the
/// possibly-spurious line); every other vector stays unbound, which is
/// harmless as long as it is never raised.
pub proof fn lemma_init_gate_coverage(v: int)
    ensures
        init_gate(v) is Some <==> is_cpu_exception(v) || v == 32 || v == 33 || v == 39,
{
}

/// Builds the boot-time vector table: every handled CPU exception bound,
/// the double-fault entry on its dedicated stack, and the timer, keyboard
/// and possibly-spurious vectors bound.
pub fn init() -> (t: IdtBuilder)
    ensures
        t.wf(),
        forall|v: int| 0 <= v < IDT_ENTRIES ==> #[trigger] t.entries_view()[v] == init_gate(v),
{
    let mut t = IdtBuilder::new();
    t.set_handler(0, Gate { handler: InterruptIndex::Divide, ist_index: None });
    t.set_handler(1, Gate { handler: InterruptIndex::Debug, ist_index: None });
    t.set_handler(2, Gate { handler: InterruptIndex::NonMaskable, ist_index: None });
    t.set_handler(3, Gate { handler: InterruptIndex::Breakpoint, ist_index: None });
    t.set_handler(4, Gate { handler: InterruptIndex::Overflow, ist_index: None });
    t.set_handler(5, Gate { handler: InterruptIndex::BoundRangeExceeded, ist_index: None });
    t.set_handler(6, Gate { handler: InterruptIndex::InvalidOpcode, ist_index: None });
    t.set_handler(7, Gate { handler: InterruptIndex::DeviceNotAvailable, ist_index: None });
    t.set_handler(
        8,
        Gate { handler: InterruptIndex::DoubleFault, ist_index: Some(DOUBLE_FAULT_IST_INDEX) },
    );
    t.set_handler(10, Gate { handler: InterruptIndex::InvalidTss, ist_index: None });
    t.set_handler(11, Gate { handler: InterruptIndex::SegmentNotPresent, ist_index: None });
    t.set_handler(12, Gate { handler: InterruptIndex::StackSegmentFault, ist_index: None });
    t.set_handler(13, Gate { handler: InterruptIndex::GeneralProtectionFault, ist_index: None });
    t.set_handler(14, Gate { handler: InterruptIndex::PageFault, ist_index: None });
    t.set_handler(16, Gate { handler: InterruptIndex::X87FloatingPoint, ist_index: None });
    t.set_handler(17, Gate { handler: InterruptIndex::AlignmentCheck, ist_index: None });
    t.set_handler(18, Gate { handler: InterruptIndex::MachineCheck, ist_index: None });
    t.set_handler(19, Gate { handler: InterruptIndex::SimdFloatingPoint, ist_index: None });
    t.set_handler(20, Gate { handler: InterruptIndex::Virtualization, ist_index: None });
    t.set_handler(30, Gate { handler: InterruptIndex::SecurityException, ist_index: None });
    t.set_handler(32, Gate { handler: InterruptIndex::Timer, ist_index: None });
    t.set_handler(33, Gate { handler: InterruptIndex::Keyboard, ist_index: None });
    t.set_handler(39, Gate { handler: InterruptIndex::MaybeSpurious, ist_index: None });
    t
}

/// What the keyboard handler does with one scan code: the character to
/// print, if the code is recognized, and the scroll event to enqueue, if
/// the code carries one.
#[derive(Debug, Clone, Copy, PartialEq, Eq)]
pub struct KeyAction {
    pub key: Option<u8>,
    pub event: Option<UiEvent>,
}

/// The fixed scan-code translation: digits, letters, space and tab (which
/// also prints a space); every other code is unrecognized and prints
/// nothing. The layout carries no modifier state on purpose.
pub open spec fn scancode_key(code: u8) -> Option<u8> {
    if code == 0x02 {
        Some(0x31)
    } else if code == 0x03 {
        Some(0x32)
    } else if code == 0x04 {
        Some(0x33)
    } else if code == 0x05 {
        Some(0x34)
    } else if code == 0x06 {
        Some(0x35)
    } else if code == 0x07 {
        Some(0x36)
    } else if code == 0x08 {
        Some(0x37)
    } else if code == 0x09 {
        Some(0x38)
    } else if code == 0x0a {
        Some(0x39)
    } else if code == 0x0b {
        Some(0x30)
    } else if code == 0x0f {
        Some(0x20)
    } else if code == 0x10 {
        Some(0x71)
    } else if code == 0x11 {
        Some(0x77)
    } else if code == 0x12 {
        Some(0x65)
    } else if code == 0x13 {
        Some(0x72)
    } else if code == 0x14 {
        Some(0x74)
    } else if code == 0x15 {
        Some(0x79)
    } else if code == 0x16 {
        Some(0x75)
    } else if code == 0x17 {
        Some(0x69)
    } else if code == 0x18 {
        Some(0x6f)
    } else if code == 0x19 {
        Some(0x70)
    } else if code == 0x1e {
        Some(0x61)
    } else if code == 0x1f {
        Some(0x73)
    } else if code == 0x20 {
        Some(0x64)
    } else if code == 0x21 {
        Some(0x66)
    } else if code == 0x22 {
        Some(0x67)
    } else if code == 0x23 {
        Some(0x68)
    } else if code == 0x24 {
        Some(0x6a)
    } else if code == 0x25 {
        Some(0x6b)
    } else if code == 0x26 {
        Some(0x6c)
    } else if code == 0x2c {
        Some(0x7a)
    } else if code == 0x2d {
        Some(0x78)
    } else if code == 0x2e {
        Some(0x63)
    } else if code == 0x2f {
        Some(0x76)
    } else if code == 0x30 {
        Some(0x62)
    } else if code == 0x31 {
        Some(0x6e)
    } else if code == 0x32 {
        Some(0x6d)
    } else if code == 0x39 {
        Some(0x20)
    } else {
        None
    }
}

/// The scroll event a scan code carries: the `j` position scrolls down,
/// the `k` position scrolls up, every other code carries none.
pub open spec fn scancode_event(code: u8) -> Option<UiEvent> {
    if code == 0x24 {
        Some(UiEvent::ScrollDown)
    } else if code == 0x25 {
        Some(UiEvent::ScrollUp)
    } else {
        None
    }
}

/// Translates one keyboard scan code into the character to print and the
/// scroll event to enqueue. The caller must acknowledge the interrupt
/// controller afterwards whatever the outcome, or the keyboard line
/// stalls.
pub fn handle_scancode(code: u8) -> (a: KeyAction)
    ensures
        a.key == scancode_key(code),
        a.event == scancode_event(code),
{
    let key: Option<u8> = if code == 0x02 {
        Some(0x31)
    } else if code == 0x03 {
        Some(0x32)
    } else if code == 0x04 {
        Some(0x33)
    } else if code == 0x05 {
        Some(0x34)
    } else if code == 0x06 {
        Some(0x35)
    } else if code == 0x07 {
        Some(0x36)
    } else if code == 0x08 {
        Some(0x37)
    } else if code == 0x09 {
        Some(0x38)
    } else if code == 0x0a {
        Some(0x39)
    } else if code == 0x0b {
        Some(0x30)
    } else if code == 0x0f {
        Some(0x20)
    } else if code == 0x10 {
        Some(0x71)
    } else if code == 0x11 {
        Some(0x77)
    } else if code == 0x12 {
        Some(0x65)
    } else if code == 0x13 {
        Some(0x72)
    } else if code == 0x14 {
        Some(0x74)
    } else if code == 0x15 {
        Some(0x79)
    } else if code == 0x16 {
        Some(0x75)
    } else if code == 0x17 {
        Some(0x69)
    } else if code == 0x18 {
        Some(0x6f)
    } else if code == 0x19 {
        Some(0x70)
    } else if code == 0x1e {
        Some(0x61)
    } else if code == 0x1f {
        Some(0x73)
    } else if code == 0x20 {
        Some(0x64)
    } else if code == 0x21 {
        Some(0x66)
    } else if code == 0x22 {
        Some(0x67)
    } else if code == 0x23 {
        Some(0x68)
    } else if code == 0x24 {
        Some(0x6a)
    } else if code == 0x25 {
        Some(0x6b)
    } else if code == 0x26 {
        Some(0x6c)
    } else if code == 0x2c {
        Some(0x7a)
    } else if code == 0x2d {
        Some(0x78)
    } else if code == 0x2e {
        Some(0x63)
    } else if code == 0x2f {
        Some(0x76)
    } else if code == 0x30 {
        Some(0x62)
    } else if code == 0x31 {
        Some(0x6e)
    } else if code == 0x32 {
        Some(0x6d)
    } else if code == 0x39 {
        Some(0x20)
    } else {
        None
    };
    let event: Option<UiEvent> = if code == 0x24 {
        Some(UiEvent::ScrollDown)
    } else if code == 0x25 {
        Some(UiEvent::ScrollUp)
    } else {
        None
    };
    KeyAction { key, event }
}

/// Whether the possibly-spurious interrupt is a real one: bit 7 of the
/// primary controller's in-service register says its last line is being
/// serviced; only then is an acknowledgement owed.
pub fn spurious_is_real(isr: u8) -> (r: bool)
    ensures
        r == ((isr & 0x80) != 0),
{
    (isr & 0x80) != 0
}

/// How a handler leaves its fault: diagnose and halt forever, diagnose and
/// resume the interrupted instruction stream, or resume silently.
#[derive(Debug, Clone, Copy, PartialEq, Eq, Structural)]
pub enum FaultResponse {
    LogAndHalt,
    LogAndResume,
    SilentResume,
}

/// The response owed to each fault. Double fault, general-protection
/// fault and machine check leave kernel state untrustworthy, so they halt.
/// Page fault and the segment faults have no manager to recover them yet;
/// rather than resume into corrupted state they diagnose and halt too.
/// The ordinary arithmetic and instruction faults are diagnosed and
/// resumed; the remaining handled faults resume silently.
pub open spec fn spec_fault_response(fault: InterruptIndex) -> FaultResponse {
    match fault {
        InterruptIndex::DoubleFault => FaultResponse::LogAndHalt,
        InterruptIndex::GeneralProtectionFault => FaultResponse::LogAndHalt,
        InterruptIndex::MachineCheck => FaultResponse::LogAndHalt,
        InterruptIndex::PageFault => FaultResponse::LogAndHalt,
        InterruptIndex::SegmentNotPresent => FaultResponse::LogAndHalt,
        InterruptIndex::StackSegmentFault => FaultResponse::LogAndHalt,
        InterruptIndex::Divide => FaultResponse::LogAndResume,
        InterruptIndex::Debug => FaultResponse::LogAndResume,
        InterruptIndex::NonMaskable => FaultResponse::LogAndResume,
        InterruptIndex::Breakpoint => FaultResponse::LogAndResume,
        InterruptIndex::Overflow => FaultResponse::LogAndResume,
        InterruptIndex::BoundRangeExceeded => FaultResponse::LogAndResume,
        InterruptIndex::InvalidOpcode => FaultResponse::LogAndResume,
        InterruptIndex::DeviceNotAvailable => FaultResponse::LogAndResume,
        InterruptIndex::InvalidTss => FaultResponse::LogAndResume,
        _ => FaultResponse::SilentResume,
    }
}

/// The response owed to each fault.
pub fn fault_response(fault: InterruptIndex) -> (r: FaultResponse)
    ensures
        r == spec_fault_response(fault),
{
    match fault {
        InterruptIndex::DoubleFault => FaultResponse::LogAndHalt,
        InterruptIndex::GeneralProtectionFault => FaultResponse::LogAndHalt,
        InterruptIndex::MachineCheck => FaultResponse::LogAndHalt,
        InterruptIndex::PageFault => FaultResponse::LogAndHalt,
        InterruptIndex::SegmentNotPresent => FaultResponse::LogAndHalt,
        InterruptIndex::StackSegmentFault => FaultResponse::LogAndHalt,
        InterruptIndex::Divide => FaultResponse::LogAndResume,
        InterruptIndex::Debug => FaultResponse::LogAndResume,
        InterruptIndex::NonMaskable => FaultResponse::LogAndResume,
        InterruptIndex::Breakpoint => FaultResponse::LogAndResume,
        InterruptIndex::Overflow => FaultResponse::LogAndResume,
        InterruptIndex::BoundRangeExceeded => FaultResponse::LogAndResume,
        InterruptIndex::InvalidOpcode => FaultResponse::LogAndResume,
        InterruptIndex::DeviceNotAvailable => FaultResponse::LogAndResume,
        InterruptIndex::InvalidTss => FaultResponse::LogAndResume,
        _ => FaultResponse::SilentResume,
    }
}

} // verus!
