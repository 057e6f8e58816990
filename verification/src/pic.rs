//! Driver logic for the two cascaded 8259-style interrupt controllers.
//!
//! The controllers are reprogrammed once at boot so that hardware interrupt
//! lines land above the CPU-exception vectors, and every serviced interrupt
//! must be acknowledged, secondary controller first when it owns the vector.
//!
//! Port output is modelled as data: each operation returns the exact sequence
//! of single-byte port writes to perform, in order. The unverified shell
//! performs them on the real ports.

use vstd::prelude::*;

verus! {

/// One byte written to one 16-bit I/O port.
#[derive(Debug, Clone, Copy, PartialEq, Eq, Structural)]
pub struct PortWrite {
    pub port: u16,
    pub value: u8,
}

/// Vector-number base of the primary controller after the remap.
pub const PIC_1_OFFSET: u8 = 0x20;

/// Vector-number base of the secondary controller after the remap.
pub const PIC_2_OFFSET: u8 = 0x28;

/// Command that starts the four-step initialization handshake.
pub const INIT_CMD: u8 = 0x11;

/// Command acknowledging the end of an interrupt.
pub const INTERRUPT_END_CMD: u8 = 0x20;

/// Operating-mode byte selecting 8086/88 mode.
pub const MODE_8086: u8 = 0x01;

/// Unused diagnostic port; a write to it only adds a settling delay.
pub const WAIT_PORT: u16 = 0x80;

/// One 8-bit interrupt controller: its command port, its data port, and the
/// vector-number base its eight lines are remapped to.
#[derive(Debug, Clone, Copy, PartialEq, Eq, Structural)]
pub struct Pic {
    pub comm: u16,
    pub data: u16,
    pub offset: u8,
}

impl Pic {
    /// Describes a controller by its two ports and its vector base.
    pub fn new(comm: u16, data: u16, offset: u8) -> (p: Pic)
        ensures
            p == (Pic { comm, data, offset }),
    {
        Pic { comm, data, offset }
    }

    /// The vector-number base of this controller.
    pub fn offset(&self) -> (o: u8)
        ensures
            o == self.offset,
    {
        self.offset
    }

    /// Whether `id` falls in this controller's eight-vector window.
    pub fn handles_interrupt(&self, id: u8) -> (r: bool)
        ensures
            r == self.spec_handles(id),
    {
        self.offset <= id && id - self.offset < 8
    }

    /// The vector window `[offset, offset + 8)` of this controller.
    pub open spec fn spec_handles(self, id: u8) -> bool {
        self.offset <= id < self.offset + 8
    }
}

/// The primary controller and the secondary controller cascaded behind it.
#[derive(Debug, Clone, Copy, PartialEq, Eq, Structural)]
pub struct PicPair {
    pub pic_1: Pic,
    pub pic_2: Pic,
}

/// The exact write sequence of the remap handshake: one initialization
/// command per controller, the new vector bases, the cascade identities,
/// the operating mode, a settling write after each step, and finally the
/// restored interrupt masks.
pub open spec fn init_write_seq(p: PicPair, mask1: u8, mask2: u8) -> Seq<PortWrite> {
    seq![
        (PortWrite { port: p.pic_1.comm, value: INIT_CMD }),
        (PortWrite { port: WAIT_PORT, value: 0 }),
        (PortWrite { port: p.pic_2.comm, value: INIT_CMD }),
        (PortWrite { port: WAIT_PORT, value: 0 }),
        (PortWrite { port: p.pic_1.data, value: p.pic_1.offset }),
        (PortWrite { port: WAIT_PORT, value: 0 }),
        (PortWrite { port: p.pic_2.data, value: p.pic_2.offset }),
        (PortWrite { port: WAIT_PORT, value: 0 }),
        (PortWrite { port: p.pic_1.data, value: 4 }),
        (PortWrite { port: WAIT_PORT, value: 0 }),
        (PortWrite { port: p.pic_2.data, value: 2 }),
        (PortWrite { port: WAIT_PORT, value: 0 }),
        (PortWrite { port: p.pic_1.data, value: MODE_8086 }),
        (PortWrite { port: WAIT_PORT, value: 0 }),
        (PortWrite { port: p.pic_2.data, value: MODE_8086 }),
        (PortWrite { port: WAIT_PORT, value: 0 }),
        (PortWrite { port: p.pic_1.data, value: mask1 }),
        (PortWrite { port: p.pic_2.data, value: mask2 }),
    ]
}

/// The exact write sequence acknowledging vector `id`: the secondary
/// controller first when the vector is in its window, then always the
/// primary; nothing when neither controller owns the vector.
pub open spec fn end_interrupt_write_seq(p: PicPair, id: u8) -> Seq<PortWrite> {
    if p.pic_2.spec_handles(id) {
        seq![
            (PortWrite { port: p.pic_2.comm, value: INTERRUPT_END_CMD }),
            (PortWrite { port: p.pic_1.comm, value: INTERRUPT_END_CMD }),
        ]
    } else if p.pic_1.spec_handles(id) {
        seq![(PortWrite { port: p.pic_1.comm, value: INTERRUPT_END_CMD })]
    } else {
        Seq::empty()
    }
}

impl PicPair {
    /// Pairs a primary controller with its cascaded secondary.
    pub fn new(pic_1: Pic, pic_2: Pic) -> (p: PicPair)
        ensures
            p == (PicPair { pic_1, pic_2 }),
    {
        PicPair { pic_1, pic_2 }
    }

    /// The remap handshake for this pair, given the interrupt masks that were
    /// saved from each controller's data port before the handshake; the masks
    /// are restored at the end so the pre-existing masking policy survives.
    pub fn init(&self, mask1: u8, mask2: u8) -> (w: Vec<PortWrite>)
        ensures
            w@ == init_write_seq(*self, mask1, mask2),
    {
        let mut w: Vec<PortWrite> = Vec::new();
        w.push(PortWrite { port: self.pic_1.comm, value: INIT_CMD });
        w.push(PortWrite { port: WAIT_PORT, value: 0 });
        w.push(PortWrite { port: self.pic_2.comm, value: INIT_CMD });
        w.push(PortWrite { port: WAIT_PORT, value: 0 });
        w.push(PortWrite { port: self.pic_1.data, value: self.pic_1.offset });
        w.push(PortWrite { port: WAIT_PORT, value: 0 });
        w.push(PortWrite { port: self.pic_2.data, value: self.pic_2.offset });
        w.push(PortWrite { port: WAIT_PORT, value: 0 });
        w.push(PortWrite { port: self.pic_1.data, value: 4 });
        w.push(PortWrite { port: WAIT_PORT, value: 0 });
        w.push(PortWrite { port: self.pic_2.data, value: 2 });
        w.push(PortWrite { port: WAIT_PORT, value: 0 });
        w.push(PortWrite { port: self.pic_1.data, value: MODE_8086 });
        w.push(PortWrite { port: WAIT_PORT, value: 0 });
        w.push(PortWrite { port: self.pic_2.data, value: MODE_8086 });
        w.push(PortWrite { port: WAIT_PORT, value: 0 });
        w.push(PortWrite { port: self.pic_1.data, value: mask1 });
        w.push(PortWrite { port: self.pic_2.data, value: mask2 });
        proof {
            assert(w@ =~= init_write_seq(*self, mask1, mask2));
        }
        w
    }

    /// The acknowledgement writes for vector `id`: exactly one to the primary
    /// when the vector is in the primary's window, exactly one to each
    /// (secondary before primary) when it is in the secondary's window, and
    /// none for any other vector.
    pub fn end_interrupt(&self, id: u8) -> (w: Vec<PortWrite>)
        ensures
            w@ == end_interrupt_write_seq(*self, id),
    {
        let one = self.pic_1.handles_interrupt(id);
        let two = self.pic_2.handles_interrupt(id);
        let mut w: Vec<PortWrite> = Vec::new();
        if one || two {
            if two {
                w.push(PortWrite { port: self.pic_2.comm, value: INTERRUPT_END_CMD });
            }
            w.push(PortWrite { port: self.pic_1.comm, value: INTERRUPT_END_CMD });
        }
        proof {
            assert(w@ =~= end_interrupt_write_seq(*self, id));
        }
        w
    }
}

/// The controller pair at its standard ports, with the standard remapped
/// vector bases.
pub fn standard_pair() -> (p: PicPair)
    ensures
        p == standard_pair_spec(),
{
    PicPair::new(Pic::new(0x20, 0x21, PIC_1_OFFSET), Pic::new(0xa0, 0xa1, PIC_2_OFFSET))
}

/// The standard pair: primary at ports `0x20`/`0x21` based at `PIC_1_OFFSET`,
/// secondary at ports `0xa0`/`0xa1` based at `PIC_2_OFFSET`.
pub open spec fn standard_pair_spec() -> PicPair {
    PicPair {
        pic_1: Pic { comm: 0x20, data: 0x21, offset: PIC_1_OFFSET },
        pic_2: Pic { comm: 0xa0, data: 0xa1, offset: PIC_2_OFFSET },
    }
}

/// The remap handshake of the standard pair, given the saved masks.
pub fn init(mask1: u8, mask2: u8) -> (w: Vec<PortWrite>)
    ensures
        w@ == init_write_seq(standard_pair_spec(), mask1, mask2),
{
    standard_pair().init(mask1, mask2)
}

/// The acknowledgement writes of the standard pair for vector `id`.
pub fn end_interrupt(id: u8) -> (w: Vec<PortWrite>)
    ensures
        w@ == end_interrupt_write_seq(standard_pair_spec(), id),
{
    standard_pair().end_interrupt(id)
}

} // verus!
