//! Construction of the global descriptor table.
//!
//! The table is built through the `x86_64` crate: kernel code, user code
//! and user data segments followed by the task-state segment that carries
//! the dedicated double-fault stack. The order of the entries fixes the
//! numeric selector values that the rest of the kernel relies on, and once
//! the unverified shell loads the table into the CPU it must never move.
//!
//! The calls into the outside crate stand behind trusted wrappers whose
//! contracts state what its source shows: which raw entry each call
//! appends and which selector it returns.

use vstd::prelude::*;

use x86_64::structures::gdt::{Descriptor, GlobalDescriptorTable};
use x86_64::structures::tss::TaskStateSegment;

verus! {

/// Index of the dedicated-stack slot reserved for the double-fault handler.
pub const DOUBLE_FAULT_IST_INDEX: u16 = 0;

/// The descriptor table of the `x86_64` crate, held opaque; its contents
/// are reached only through `gdt_entries`.
#[verifier::external_type_specification]
#[verifier::external_body]
pub struct ExGlobalDescriptorTable(GlobalDescriptorTable);

/// The task-state segment of the `x86_64` crate, held opaque; the library
/// only passes a reference to it through to the descriptor builder.
#[verifier::external_type_specification]
#[verifier::external_body]
pub struct ExTaskStateSegment(TaskStateSegment);

/// The raw 8-byte entries the table holds so far, the leading null entry
/// included. A system descriptor spans two of them.
pub uninterp spec fn gdt_entries(g: GlobalDescriptorTable) -> Seq<u64>;

/// Relies on `GlobalDescriptorTable::new`: a fresh table holds only the
/// null entry.
#[verifier::external_body]
fn gdt_new() -> (g: GlobalDescriptorTable)
    ensures
        gdt_entries(g) == seq![0u64],
{
    GlobalDescriptorTable::new()
}

/// Relies on `GlobalDescriptorTable::add_entry` with
/// `Descriptor::kernel_code_segment`: appends the 64-bit kernel-code entry
/// (one 8-byte slot, privilege level 0) and returns the selector of the
/// slot it landed in, with requested privilege level 0.
#[verifier::external_body]
fn gdt_add_kernel_code(g: &mut GlobalDescriptorTable) -> (sel: u16)
    requires
        gdt_entries(*old(g)).len() <= 7,
    ensures
        gdt_entries(*final(g)) == gdt_entries(*old(g)).push(0x00af9b000000ffffu64),
        sel == gdt_entries(*old(g)).len() * 8,
{
    g.add_entry(Descriptor::kernel_code_segment()).0
}

/// Relies on `GlobalDescriptorTable::add_entry` with
/// `Descriptor::user_code_segment`: appends the 64-bit ring-3 code entry
/// and returns the selector of its slot, with requested privilege level 3.
#[verifier::external_body]
fn gdt_add_user_code(g: &mut GlobalDescriptorTable) -> (sel: u16)
    requires
        gdt_entries(*old(g)).len() <= 7,
    ensures
        gdt_entries(*final(g)) == gdt_entries(*old(g)).push(0x00affb000000ffffu64),
        sel == gdt_entries(*old(g)).len() * 8 + 3,
{
    g.add_entry(Descriptor::user_code_segment()).0
}

/// Relies on `GlobalDescriptorTable::add_entry` with
/// `Descriptor::user_data_segment`: appends the ring-3 data entry and
/// returns the selector of its slot, with requested privilege level 3.
#[verifier::external_body]
fn gdt_add_user_data(g: &mut GlobalDescriptorTable) -> (sel: u16)
    requires
        gdt_entries(*old(g)).len() <= 7,
    ensures
        gdt_entries(*final(g)) == gdt_entries(*old(g)).push(0x00cff3000000ffffu64),
        sel == gdt_entries(*old(g)).len() * 8 + 3,
{
    g.add_entry(Descriptor::user_data_segment()).0
}

/// Relies on `GlobalDescriptorTable::add_entry` with
/// `Descriptor::tss_segment`: appends a two-slot system descriptor whose
/// bits encode the address of the task-state segment, so only the new
/// length and the preserved prefix are stated; the returned selector names
/// the first of the two slots, with requested privilege level 0.
#[verifier::external_body]
fn gdt_add_tss(g: &mut GlobalDescriptorTable, tss: &'static TaskStateSegment) -> (sel: u16)
    requires
        gdt_entries(*old(g)).len() <= 6,
    ensures
        gdt_entries(*final(g)).len() == gdt_entries(*old(g)).len() + 2,
        gdt_entries(*final(g)).subrange(0, gdt_entries(*old(g)).len() as int) == gdt_entries(
            *old(g),
        ),
        sel == gdt_entries(*old(g)).len() * 8,
{
    g.add_entry(Descriptor::tss_segment(tss)).0
}

/// The selector values assigned by the build order of the table; callers
/// needing them (for privilege transitions or the task register) read them
/// from here.
#[derive(Debug, Clone, Copy, PartialEq, Eq, Structural)]
pub struct Selectors {
    pub ring0_code: u16,
    pub ring3_code: u16,
    pub ring3_data: u16,
    pub tss: u16,
}

/// Builds the descriptor table: the null entry, the kernel code segment,
/// the user code segment, the user data segment, and the task-state
/// segment carrying the double-fault stack, in that order. The selector
/// values follow from the order alone. Loading the table into the CPU is
/// the unverified shell's step.
pub fn init(tss: &'static TaskStateSegment) -> (r: (GlobalDescriptorTable, Selectors))
    ensures
        gdt_entries(r.0).len() == 6,
        gdt_entries(r.0)[0] == 0,
        gdt_entries(r.0)[1] == 0x00af9b000000ffffu64,
        gdt_entries(r.0)[2] == 0x00affb000000ffffu64,
        gdt_entries(r.0)[3] == 0x00cff3000000ffffu64,
        r.1 == (Selectors { ring0_code: 0x08, ring3_code: 0x13, ring3_data: 0x1b, tss: 0x20 }),
{
    let mut gdt = gdt_new();
    let ring0_code = gdt_add_kernel_code(&mut gdt);
    let ring3_code = gdt_add_user_code(&mut gdt);
    let ring3_data = gdt_add_user_data(&mut gdt);
    let ghost before_tss = gdt_entries(gdt);
    let tss_sel = gdt_add_tss(&mut gdt, tss);
    proof {
        assert(gdt_entries(gdt).subrange(0, 4) == before_tss);
        assert(gdt_entries(gdt)[0] == gdt_entries(gdt).subrange(0, 4)[0]);
        assert(gdt_entries(gdt)[1] == gdt_entries(gdt).subrange(0, 4)[1]);
        assert(gdt_entries(gdt)[2] == gdt_entries(gdt).subrange(0, 4)[2]);
        assert(gdt_entries(gdt)[3] == gdt_entries(gdt).subrange(0, 4)[3]);
    }
    let selectors = Selectors { ring0_code, ring3_code, ring3_data, tss: tss_sel };
    (gdt, selectors)
}

} // verus!
