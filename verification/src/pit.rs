//! Driver logic for the programmable interval timer.
//!
//! Channel 0 is programmed once at boot as a repeating rate generator whose
//! 16-bit reload value is sent as two sequential bytes, low byte first. The
//! reload value divides the chip's base frequency down to the desired tick
//! rate. As in the rest of the crate, the port output is returned as data.

use vstd::prelude::*;

use crate::pic::PortWrite;

verus! {

/// Mode/command register of the timer chip.
pub const PIT_COMMAND_PORT: u16 = 0x43;

/// Data port of channel 0.
pub const PIT_CHANNEL_0_PORT: u16 = 0x40;

/// Input frequency of the timer chip, in Hz.
pub const PIT_BASE_FREQUENCY: u32 = 1193182;

/// Tick rate the kernel programs, in Hz (one tick every 10 ms).
pub const PIT_RATE: u32 = 100;

/// Command byte: channel 0, low-then-high byte access, rate-generator mode,
/// 16-bit binary counting.
pub const PIT_MODE_CMD: u8 = (1u8 << 2) | (3u8 << 4);

/// The exact write sequence that programs channel 0: the mode byte on the
/// command port, then the reload value `PIT_BASE_FREQUENCY / PIT_RATE` on the
/// channel's data port, low byte first.
pub open spec fn pit_init_write_seq() -> Seq<PortWrite> {
    seq![
        (PortWrite { port: PIT_COMMAND_PORT, value: PIT_MODE_CMD }),
        (PortWrite {
            port: PIT_CHANNEL_0_PORT,
            value: ((PIT_BASE_FREQUENCY / PIT_RATE) % 256) as u8,
        }),
        (PortWrite {
            port: PIT_CHANNEL_0_PORT,
            value: ((PIT_BASE_FREQUENCY / PIT_RATE) / 256) as u8,
        }),
    ]
}

/// The writes that configure the periodic timer tick.
pub fn init() -> (w: Vec<PortWrite>)
    ensures
        w@ == pit_init_write_seq(),
{
    let divisor: u32 = PIT_BASE_FREQUENCY / PIT_RATE;
    let mut w: Vec<PortWrite> = Vec::new();
    w.push(PortWrite { port: PIT_COMMAND_PORT, value: PIT_MODE_CMD });
    w.push(PortWrite { port: PIT_CHANNEL_0_PORT, value: (divisor % 256) as u8 });
    w.push(PortWrite { port: PIT_CHANNEL_0_PORT, value: (divisor / 256) as u8 });
    proof {
        assert(w@ =~= pit_init_write_seq());
    }
    w
}

} // verus!
