//! Model of the programmable interval timer. Three down-counting channels
//! with a shared control register: channel zero raises the timer interrupt
//! line on the interrupt controller when it expires, channel one lodges a
//! DRAM-refresh request with the DMA controller, channel two (the speaker
//! gate) counts with no side effect the core observes. A tick is at most a
//! handful of cycles, so the model fires each channel at most once per tick.

use crate::dma::DMAController;
use crate::pic::Pic;
use crate::text::{ascii_view, dec_string, hex2_string, spec_dec_str, spec_hex2};
use vstd::prelude::*;

verus! {

pub const PIT_CHANNEL_0_DATA_PORT: u16 = 0x40;

pub const PIT_CHANNEL_1_DATA_PORT: u16 = 0x41;

pub const PIT_CHANNEL_2_DATA_PORT: u16 = 0x42;

pub const PIT_COMMAND_REGISTER: u16 = 0x43;

/// One timer channel: the programmed reload value (zero meaning 65536), the
/// current count, and the byte flip-flops for writing and reading the
/// 16-bit registers through an 8-bit port.
#[derive(Copy, Clone, Debug, PartialEq, Eq, Structural)]
pub struct PitChannel {
    pub reload: u16,
    pub count: u32,
    pub wr_high: bool,
    pub rd_high: bool,
}

/// The reload value a channel counts from: a programmed zero means 65536.
pub open spec fn spec_reload_of(reload: u16) -> int {
    if reload == 0 {
        65536
    } else {
        reload as int
    }
}

impl PitChannel {
    /// The power-on state: full-range count, flip-flops on the low byte.
    pub open spec fn spec_default() -> PitChannel {
        PitChannel { reload: 0, count: 65536, wr_high: false, rd_high: false }
    }

    pub fn new() -> (ch: PitChannel)
        ensures
            ch == PitChannel::spec_default(),
    {
        PitChannel { reload: 0, count: 65536, wr_high: false, rd_high: false }
    }

    /// The channel after counting down by `cycles`: either the count simply
    /// drops, or the channel expires once and restarts from its reload value
    /// less the overshoot.
    pub open spec fn spec_tick(self, cycles: u32) -> PitChannel {
        if cycles < self.count {
            PitChannel { count: (self.count - cycles) as u32, ..self }
        } else {
            let reload = spec_reload_of(self.reload);
            PitChannel {
                count: (reload - ((cycles - self.count) % reload)) as u32,
                ..self
            }
        }
    }

    /// Whether counting down by `cycles` makes the channel expire.
    pub open spec fn spec_fires(self, cycles: u32) -> bool {
        cycles >= self.count
    }

    /// Counts down by `cycles`; returns whether the channel expired.
    fn tick(&mut self, cycles: u32) -> (fired: bool)
        ensures
            *final(self) == old(self).spec_tick(cycles),
            fired == old(self).spec_fires(cycles),
    {
        if cycles < self.count {
            self.count = self.count - cycles;
            false
        } else {
            let reload: u32 = if self.reload == 0 {
                65536
            } else {
                self.reload as u32
            };
            let over = (cycles - self.count) % reload;
            self.count = reload - over;
            true
        }
    }
}

/// Snapshot of the timer in string form.
pub struct PitStringState {
    pub c0_reload: String,
    pub c0_count: String,
    pub c1_reload: String,
    pub c1_count: String,
    pub c2_reload: String,
    pub c2_count: String,
    pub control: String,
}

/// The programmable interval timer.
pub struct ProgrammableIntervalTimer {
    pub c0: PitChannel,
    pub c1: PitChannel,
    pub c2: PitChannel,
    pub control: u8,
    pub cycles: u64,
}

impl ProgrammableIntervalTimer {
    pub fn new() -> (pit: ProgrammableIntervalTimer)
        ensures
            pit.c0 == PitChannel::spec_default(),
            pit.c1 == PitChannel::spec_default(),
            pit.c2 == PitChannel::spec_default(),
            pit.control == 0,
            pit.cycles == 0,
    {
        ProgrammableIntervalTimer {
            c0: PitChannel::new(),
            c1: PitChannel::new(),
            c2: PitChannel::new(),
            control: 0,
            cycles: 0,
        }
    }

    /// Total cycles the timer has been run for.
    pub fn get_cycles(&self) -> (r: u64)
        ensures
            r == self.cycles,
    {
        self.cycles
    }

    /// One tick of `cycles` cycles: all three channels count down; an
    /// expiring channel zero asserts interrupt line zero, an expiring
    /// channel one lodges a DRAM-refresh request.
    pub fn run(&mut self, pic: &mut Pic, dma: &mut DMAController, cycles: u32)
        requires
            old(self).cycles + cycles <= u64::MAX,
        ensures
            final(self).c0 == old(self).c0.spec_tick(cycles),
            final(self).c1 == old(self).c1.spec_tick(cycles),
            final(self).c2 == old(self).c2.spec_tick(cycles),
            final(self).control == old(self).control,
            final(self).cycles == old(self).cycles + cycles,
            old(self).c0.spec_fires(cycles) ==> final(pic).irr() == old(pic).irr() | 1u8,
            !old(self).c0.spec_fires(cycles) ==> final(pic).irr() == old(pic).irr(),
            final(pic).imr() == old(pic).imr(),
            final(pic).isr() == old(pic).isr(),
            old(self).c1.spec_fires(cycles) ==> *final(dma) == (DMAController {
                refresh_req: true,
                ..*old(dma)
            }),
            !old(self).c1.spec_fires(cycles) ==> *final(dma) == *old(dma),
    {
        if self.c0.tick(cycles) {
            pic.request_interrupt(0);
            proof {
                assert((1u8 << 0u8) == 1u8) by (bit_vector);
            }
        }
        if self.c1.tick(cycles) {
            dma.request_refresh();
        }
        let _ = self.c2.tick(cycles);
        self.cycles = self.cycles + cycles as u64;
    }

    /// Port interface: a data-port write loads one byte of the channel's
    /// reload value through its write flip-flop and restarts the count; a
    /// control write stores the control word and resets the selected
    /// channel's flip-flops.
    pub fn write_port(&mut self, port: u16, data: u8)
        ensures
            *final(self) == spec_pit_write(*old(self), port, data),
    {
        if port == PIT_CHANNEL_0_DATA_PORT {
            self.c0 = channel_load(self.c0, data);
        } else if port == PIT_CHANNEL_1_DATA_PORT {
            self.c1 = channel_load(self.c1, data);
        } else if port == PIT_CHANNEL_2_DATA_PORT {
            self.c2 = channel_load(self.c2, data);
        } else if port == PIT_COMMAND_REGISTER {
            self.control = data;
            let select = data / 64;
            if select == 0 {
                self.c0.wr_high = false;
                self.c0.rd_high = false;
            } else if select == 1 {
                self.c1.wr_high = false;
                self.c1.rd_high = false;
            } else if select == 2 {
                self.c2.wr_high = false;
                self.c2.rd_high = false;
            }
        }
    }

    /// Port interface: a data-port read returns one byte of the channel's
    /// current count through its read flip-flop; the control register is
    /// write-only and reads as zero.
    pub fn read_port(&mut self, port: u16) -> (r: u8)
        ensures
            r == spec_pit_read_value(*old(self), port),
            *final(self) == spec_pit_read_next(*old(self), port),
            port == PIT_CHANNEL_0_DATA_PORT ==> r == spec_count_byte(old(self).c0) && *final(self)
                == (ProgrammableIntervalTimer {
                c0: (PitChannel { rd_high: !old(self).c0.rd_high, ..old(self).c0 }),
                ..*old(self)
            }),
            port == PIT_CHANNEL_1_DATA_PORT ==> r == spec_count_byte(old(self).c1) && *final(self)
                == (ProgrammableIntervalTimer {
                c1: (PitChannel { rd_high: !old(self).c1.rd_high, ..old(self).c1 }),
                ..*old(self)
            }),
            port == PIT_CHANNEL_2_DATA_PORT ==> r == spec_count_byte(old(self).c2) && *final(self)
                == (ProgrammableIntervalTimer {
                c2: (PitChannel { rd_high: !old(self).c2.rd_high, ..old(self).c2 }),
                ..*old(self)
            }),
            !(port == PIT_CHANNEL_0_DATA_PORT || port == PIT_CHANNEL_1_DATA_PORT || port
                == PIT_CHANNEL_2_DATA_PORT) ==> r == 0 && *final(self) == *old(self),
    {
        if port == PIT_CHANNEL_0_DATA_PORT {
            let r = channel_count_byte(&self.c0);
            self.c0.rd_high = !self.c0.rd_high;
            r
        } else if port == PIT_CHANNEL_1_DATA_PORT {
            let r = channel_count_byte(&self.c1);
            self.c1.rd_high = !self.c1.rd_high;
            r
        } else if port == PIT_CHANNEL_2_DATA_PORT {
            let r = channel_count_byte(&self.c2);
            self.c2.rd_high = !self.c2.rd_high;
            r
        } else {
            0
        }
    }

    /// Returns every channel and the control register to the power-on
    /// state; the cycle total restarts as well.
    pub fn reset(&mut self)
        ensures
            final(self).c0 == PitChannel::spec_default(),
            final(self).c1 == PitChannel::spec_default(),
            final(self).c2 == PitChannel::spec_default(),
            final(self).control == 0,
            final(self).cycles == 0,
    {
        self.c0 = PitChannel::new();
        self.c1 = PitChannel::new();
        self.c2 = PitChannel::new();
        self.control = 0;
        self.cycles = 0;
    }

    /// The channel reload values and counts and the control register, in
    /// string form.
    pub fn get_string_repr(&self) -> (state: PitStringState)
        ensures
            state.c0_reload@ == ascii_view(spec_dec_str(self.c0.reload as int)),
            state.c0_count@ == ascii_view(spec_dec_str(self.c0.count as int)),
            state.c1_reload@ == ascii_view(spec_dec_str(self.c1.reload as int)),
            state.c1_count@ == ascii_view(spec_dec_str(self.c1.count as int)),
            state.c2_reload@ == ascii_view(spec_dec_str(self.c2.reload as int)),
            state.c2_count@ == ascii_view(spec_dec_str(self.c2.count as int)),
            state.control@ == ascii_view(spec_hex2(self.control)),
    {
        PitStringState {
            c0_reload: dec_string(self.c0.reload as u64),
            c0_count: dec_string(self.c0.count as u64),
            c1_reload: dec_string(self.c1.reload as u64),
            c1_count: dec_string(self.c1.count as u64),
            c2_reload: dec_string(self.c2.reload as u64),
            c2_count: dec_string(self.c2.count as u64),
            control: hex2_string(self.control),
        }
    }
}

/// A channel after one byte of its reload value is loaded: the write
/// flip-flop picks the byte, the count restarts from the new reload value.
pub open spec fn spec_channel_load(ch: PitChannel, data: u8) -> PitChannel {
    let reload: u16 = if ch.wr_high {
        (ch.reload % 256 + data * 256) as u16
    } else {
        ((ch.reload / 256) * 256 + data) as u16
    };
    PitChannel {
        reload,
        count: spec_reload_of(reload) as u32,
        wr_high: !ch.wr_high,
        rd_high: ch.rd_high,
    }
}

/// The byte of the current count that a data-port read returns.
pub open spec fn spec_count_byte(ch: PitChannel) -> u8 {
    if ch.rd_high {
        ((ch.count / 256) % 256) as u8
    } else {
        (ch.count % 256) as u8
    }
}

/// The byte a data-port read returns.
pub open spec fn spec_pit_read_value(pre: ProgrammableIntervalTimer, port: u16) -> u8 {
    if port == PIT_CHANNEL_0_DATA_PORT {
        spec_count_byte(pre.c0)
    } else if port == PIT_CHANNEL_1_DATA_PORT {
        spec_count_byte(pre.c1)
    } else if port == PIT_CHANNEL_2_DATA_PORT {
        spec_count_byte(pre.c2)
    } else {
        0
    }
}

/// The timer after a port read: a data-port read toggles the channel's read
/// flip-flop.
pub open spec fn spec_pit_read_next(
    pre: ProgrammableIntervalTimer,
    port: u16,
) -> ProgrammableIntervalTimer {
    if port == PIT_CHANNEL_0_DATA_PORT {
        ProgrammableIntervalTimer {
            c0: (PitChannel { rd_high: !pre.c0.rd_high, ..pre.c0 }),
            ..pre
        }
    } else if port == PIT_CHANNEL_1_DATA_PORT {
        ProgrammableIntervalTimer {
            c1: (PitChannel { rd_high: !pre.c1.rd_high, ..pre.c1 }),
            ..pre
        }
    } else if port == PIT_CHANNEL_2_DATA_PORT {
        ProgrammableIntervalTimer {
            c2: (PitChannel { rd_high: !pre.c2.rd_high, ..pre.c2 }),
            ..pre
        }
    } else {
        pre
    }
}

/// The timer after a port write.
pub open spec fn spec_pit_write(
    pre: ProgrammableIntervalTimer,
    port: u16,
    data: u8,
) -> ProgrammableIntervalTimer {
    if port == PIT_CHANNEL_0_DATA_PORT {
        ProgrammableIntervalTimer { c0: spec_channel_load(pre.c0, data), ..pre }
    } else if port == PIT_CHANNEL_1_DATA_PORT {
        ProgrammableIntervalTimer { c1: spec_channel_load(pre.c1, data), ..pre }
    } else if port == PIT_CHANNEL_2_DATA_PORT {
        ProgrammableIntervalTimer { c2: spec_channel_load(pre.c2, data), ..pre }
    } else if port == PIT_COMMAND_REGISTER {
        let with_control = ProgrammableIntervalTimer { control: data, ..pre };
        let select = data / 64;
        if select == 0 {
            ProgrammableIntervalTimer {
                c0: (PitChannel { wr_high: false, rd_high: false, ..pre.c0 }),
                ..with_control
            }
        } else if select == 1 {
            ProgrammableIntervalTimer {
                c1: (PitChannel { wr_high: false, rd_high: false, ..pre.c1 }),
                ..with_control
            }
        } else if select == 2 {
            ProgrammableIntervalTimer {
                c2: (PitChannel { wr_high: false, rd_high: false, ..pre.c2 }),
                ..with_control
            }
        } else {
            with_control
        }
    } else {
        pre
    }
}

/// Loads one byte of a channel's reload value.
fn channel_load(ch: PitChannel, data: u8) -> (r: PitChannel)
    ensures
        r == spec_channel_load(ch, data),
{
    let reload: u16 = if ch.wr_high {
        ch.reload % 256 + data as u16 * 256
    } else {
        (ch.reload / 256) * 256 + data as u16
    };
    let count: u32 = if reload == 0 {
        65536
    } else {
        reload as u32
    };
    PitChannel { reload, count, wr_high: !ch.wr_high, rd_high: ch.rd_high }
}

/// Reads one byte of a channel's current count.
fn channel_count_byte(ch: &PitChannel) -> (r: u8)
    ensures
        r == spec_count_byte(*ch),
{
    if ch.rd_high {
        ((ch.count / 256) % 256) as u8
    } else {
        (ch.count % 256) as u8
    }
}

} // verus!
