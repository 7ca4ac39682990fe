//! Model of the processor, at the level the machine orchestration needs: a
//! code pointer in segment-offset form, the interrupt flag, an accumulator
//! for port input and output, a latched error state, and an instruction
//! history. The model executes a small fixed instruction set — no-op,
//! interrupt-flag changes, a far jump, and port input and output — and
//! latches an error on any other opcode, as an early-development decoder
//! does on instructions it cannot handle.

use crate::bus::BusInterface;
use crate::io::{spec_io_read_next, spec_io_read_value, spec_io_write_next, Devices,
    IoBusInterface, UNBOUND_PORT_VALUE};
use crate::text::{ascii_to_string, ascii_view, hex2_string, push_hex2, push_hex5_upper,
    spec_hex2, spec_hex5_upper, all_ascii};
use vstd::prelude::*;
use vstd::string::StringExecFns;

verus! {

#[derive(Copy, Clone, Debug, PartialEq, Eq, Structural)]
pub enum CpuType {
    Cpu8088,
    Cpu8086,
    Cpu8186,
}

/// Error a step can latch: an opcode the model does not implement.
#[derive(Copy, Clone, Debug, PartialEq, Eq, Structural)]
pub enum CpuError {
    UnhandledInstruction(u8),
}

pub const OPCODE_NOP: u8 = 0x90;

pub const OPCODE_JMP_FAR: u8 = 0xEA;

pub const OPCODE_IN_AL_IMM8: u8 = 0xE4;

pub const OPCODE_OUT_IMM8_AL: u8 = 0xE6;

pub const OPCODE_CLI: u8 = 0xFA;

pub const OPCODE_STI: u8 = 0xFB;

/// How many fetches the instruction history keeps.
pub const HISTORY_LEN: usize = 32;

/// The model processor.
pub struct Cpu {
    pub cpu_type: CpuType,
    pub piq_len: u32,
    pub cs: u16,
    pub ip: u16,
    pub al: u8,
    pub interrupts: bool,
    pub error: bool,
    pub reset_seg: u16,
    pub reset_off: u16,
    pub history: Vec<(u32, u8)>,
}

/// The 20-bit flat address of a segment-offset pair.
pub open spec fn spec_flat(cs: u16, ip: u16) -> int {
    (cs * 16 + ip) % 0x100000
}

/// The instruction history with one fetch appended, keeping only the last
/// `HISTORY_LEN` entries.
pub open spec fn spec_history_push(h: Seq<(u32, u8)>, entry: (u32, u8)) -> Seq<(u32, u8)> {
    if h.len() < HISTORY_LEN {
        h.push(entry)
    } else {
        h.subrange(1, h.len() as int).push(entry)
    }
}

/// What one step does, given the opcode fetched at the current flat
/// address: the implemented instructions advance the code pointer and act
/// on the flag, the accumulator or the port bus; any other opcode latches
/// the error state and is reported. The step never writes memory.
pub open spec fn spec_step_post(
    pre: Cpu,
    post: Cpu,
    pre_dev: Devices,
    post_dev: Devices,
    io_bus: IoBusInterface,
    mem: Seq<u8>,
    r: Result<(), CpuError>,
) -> bool {
    let flat = spec_flat(pre.cs, pre.ip);
    let op = mem[flat];
    &&& post.cpu_type == pre.cpu_type
    &&& post.piq_len == pre.piq_len
    &&& post.reset_seg == pre.reset_seg
    &&& post.reset_off == pre.reset_off
    &&& post.history@ == spec_history_push(pre.history@, (flat as u32, op))
    &&& if op == OPCODE_NOP {
        &&& post == (Cpu { ip: ((pre.ip + 1) % 0x10000) as u16, history: post.history, ..pre })
        &&& post_dev == pre_dev
        &&& r == Ok::<(), CpuError>(())
    } else if op == OPCODE_CLI {
        &&& post == (Cpu {
            ip: ((pre.ip + 1) % 0x10000) as u16,
            interrupts: false,
            history: post.history,
            ..pre
        })
        &&& post_dev == pre_dev
        &&& r == Ok::<(), CpuError>(())
    } else if op == OPCODE_STI {
        &&& post == (Cpu {
            ip: ((pre.ip + 1) % 0x10000) as u16,
            interrupts: true,
            history: post.history,
            ..pre
        })
        &&& post_dev == pre_dev
        &&& r == Ok::<(), CpuError>(())
    } else if op == OPCODE_JMP_FAR {
        let off = mem[(flat + 1) % 0x100000] + mem[(flat + 2) % 0x100000] * 256;
        let seg = mem[(flat + 3) % 0x100000] + mem[(flat + 4) % 0x100000] * 256;
        &&& post == (Cpu { ip: off as u16, cs: seg as u16, history: post.history, ..pre })
        &&& post_dev == pre_dev
        &&& r == Ok::<(), CpuError>(())
    } else if op == OPCODE_IN_AL_IMM8 {
        let port = mem[(flat + 1) % 0x100000] as u16;
        let value = match io_bus.binding(port) {
            Option::None => UNBOUND_PORT_VALUE,
            Option::Some(kind) => spec_io_read_value(pre_dev, kind, port),
        };
        &&& post == (Cpu {
            ip: ((pre.ip + 2) % 0x10000) as u16,
            al: value,
            history: post.history,
            ..pre
        })
        &&& post_dev == (match io_bus.binding(port) {
            Option::None => pre_dev,
            Option::Some(kind) => spec_io_read_next(pre_dev, kind, port),
        })
        &&& r == Ok::<(), CpuError>(())
    } else if op == OPCODE_OUT_IMM8_AL {
        let port = mem[(flat + 1) % 0x100000] as u16;
        &&& post == (Cpu { ip: ((pre.ip + 2) % 0x10000) as u16, history: post.history, ..pre })
        &&& post_dev == (match io_bus.binding(port) {
            Option::None => pre_dev,
            Option::Some(kind) => spec_io_write_next(pre_dev, kind, port, pre.al),
        })
        &&& r == Ok::<(), CpuError>(())
    } else {
        &&& post == (Cpu { error: true, history: post.history, ..pre })
        &&& post_dev == pre_dev
        &&& r == Err::<(), CpuError>(CpuError::UnhandledInstruction(op))
    }
}

impl Cpu {
    pub fn new(cpu_type: CpuType, piq_len: u32) -> (cpu: Cpu)
        ensures
            cpu == (Cpu {
                cpu_type,
                piq_len,
                cs: 0xFFFF,
                ip: 0,
                al: 0,
                interrupts: false,
                error: false,
                reset_seg: 0xFFFF,
                reset_off: 0,
                history: cpu.history,
            }),
            cpu.history@ == Seq::<(u32, u8)>::empty(),
    {
        Cpu {
            cpu_type,
            piq_len,
            cs: 0xFFFF,
            ip: 0,
            al: 0,
            interrupts: false,
            error: false,
            reset_seg: 0xFFFF,
            reset_off: 0,
            history: Vec::new(),
        }
    }

    /// Returns the processor to its power-on state at the stored reset
    /// address, clearing the error latch and the history.
    pub fn reset(&mut self)
        ensures
            *final(self) == (Cpu {
                cs: old(self).reset_seg,
                ip: old(self).reset_off,
                al: 0,
                interrupts: false,
                error: false,
                history: final(self).history,
                ..*old(self)
            }),
            final(self).history@ == Seq::<(u32, u8)>::empty(),
    {
        self.cs = self.reset_seg;
        self.ip = self.reset_off;
        self.al = 0;
        self.interrupts = false;
        self.error = false;
        self.history = Vec::new();
    }

    /// Stores the address the processor starts from after a reset.
    pub fn set_reset_address(&mut self, seg: u16, off: u16)
        ensures
            *final(self) == (Cpu { reset_seg: seg, reset_off: off, ..*old(self) }),
    {
        self.reset_seg = seg;
        self.reset_off = off;
    }

    /// Jumps to the stored reset address.
    pub fn reset_address(&mut self)
        ensures
            *final(self) == (Cpu {
                cs: old(self).reset_seg,
                ip: old(self).reset_off,
                ..*old(self)
            }),
    {
        self.cs = self.reset_seg;
        self.ip = self.reset_off;
    }

    /// The 20-bit flat address of the next instruction.
    pub fn get_flat_address(&self) -> (r: u32)
        ensures
            r == spec_flat(self.cs, self.ip),
    {
        (self.cs as u32 * 16 + self.ip as u32) % 0x100000
    }

    pub fn is_error(&self) -> (r: bool)
        ensures
            r == self.error,
    {
        self.error
    }

    pub fn interrupts_enabled(&self) -> (r: bool)
        ensures
            r == self.interrupts,
    {
        self.interrupts
    }

    /// Executes one instruction against the memory bus and the port bus.
    pub fn step(&mut self, bus: &mut BusInterface, io_bus: &IoBusInterface, devices: &mut Devices)
        -> (r: Result<(), CpuError>)
        requires
            old(bus).wf(),
            io_bus.wf(),
            !old(self).error,
        ensures
            *final(bus) == *old(bus),
            spec_step_post(
                *old(self),
                *final(self),
                *old(devices),
                *final(devices),
                *io_bus,
                old(bus).mem(),
                r,
            ),
            r is Err <==> final(self).error,
    {
        let flat = self.get_flat_address();
        let op = match bus.read_u8(flat as usize) {
            Ok((b, _)) => b,
            Err(_) => 0,
        };
        self.record_fetch(flat, op);
        if op == OPCODE_NOP {
            self.ip = wrap_add(self.ip, 1);
            Ok(())
        } else if op == OPCODE_CLI {
            self.ip = wrap_add(self.ip, 1);
            self.interrupts = false;
            Ok(())
        } else if op == OPCODE_STI {
            self.ip = wrap_add(self.ip, 1);
            self.interrupts = true;
            Ok(())
        } else if op == OPCODE_JMP_FAR {
            let lo_off = self.fetch_at(bus, flat, 1);
            let hi_off = self.fetch_at(bus, flat, 2);
            let lo_seg = self.fetch_at(bus, flat, 3);
            let hi_seg = self.fetch_at(bus, flat, 4);
            self.ip = lo_off as u16 + hi_off as u16 * 256;
            self.cs = lo_seg as u16 + hi_seg as u16 * 256;
            Ok(())
        } else if op == OPCODE_IN_AL_IMM8 {
            let port = self.fetch_at(bus, flat, 1) as u16;
            self.al = io_bus.read(devices, port);
            self.ip = wrap_add(self.ip, 2);
            Ok(())
        } else if op == OPCODE_OUT_IMM8_AL {
            let port = self.fetch_at(bus, flat, 1) as u16;
            io_bus.write(devices, port, self.al);
            self.ip = wrap_add(self.ip, 2);
            Ok(())
        } else {
            self.error = true;
            Err(CpuError::UnhandledInstruction(op))
        }
    }

    /// Appends one fetch to the instruction history, keeping the last
    /// `HISTORY_LEN` entries.
    fn record_fetch(&mut self, flat: u32, op: u8)
        ensures
            *final(self) == (Cpu { history: final(self).history, ..*old(self) }),
            final(self).history@ == spec_history_push(old(self).history@, (flat, op)),
    {
        if self.history.len() >= HISTORY_LEN {
            self.history.remove(0);
        }
        self.history.push((flat, op));
        proof {
            if old(self).history@.len() < HISTORY_LEN {
                assert(final(self).history@ == spec_history_push(
                    old(self).history@,
                    (flat, op),
                ));
            } else {
                assert(final(self).history@ =~= old(self).history@.subrange(
                    1,
                    old(self).history@.len() as int,
                ).push((flat, op)));
            }
        }
    }

    /// Reads the instruction byte `offset` bytes past `flat`, wrapping at
    /// the top of the address space.
    fn fetch_at(&self, bus: &BusInterface, flat: u32, offset: u32) -> (r: u8)
        requires
            bus.wf(),
            flat < 0x100000,
            offset <= 4,
        ensures
            r == bus.mem()[(flat + offset) % 0x100000],
    {
        let addr = (flat + offset) % 0x100000;
        match bus.read_u8(addr as usize) {
            Ok((b, _)) => b,
            Err(_) => 0,
        }
    }

    /// Delivers a hardware interrupt: loads the code pointer from the
    /// interrupt vector table and clears the interrupt flag.
    pub fn do_hw_interrupt(&mut self, bus: &mut BusInterface, vector: u8)
        requires
            old(bus).wf(),
        ensures
            *final(bus) == *old(bus),
            *final(self) == (Cpu {
                ip: (old(bus).mem()[vector * 4] + old(bus).mem()[vector * 4 + 1] * 256) as u16,
                cs: (old(bus).mem()[vector * 4 + 2] + old(bus).mem()[vector * 4 + 3]
                    * 256) as u16,
                interrupts: false,
                ..*old(self)
            }),
    {
        let base = vector as usize * 4;
        let lo_ip = match bus.read_u8(base) {
            Ok((b, _)) => b,
            Err(_) => 0,
        };
        let hi_ip = match bus.read_u8(base + 1) {
            Ok((b, _)) => b,
            Err(_) => 0,
        };
        let lo_cs = match bus.read_u8(base + 2) {
            Ok((b, _)) => b,
            Err(_) => 0,
        };
        let hi_cs = match bus.read_u8(base + 3) {
            Ok((b, _)) => b,
            Err(_) => 0,
        };
        self.ip = lo_ip as u16 + hi_ip as u16 * 256;
        self.cs = lo_cs as u16 + hi_cs as u16 * 256;
        self.interrupts = false;
    }

    /// The instruction history, one fetch per row: the flat address and the
    /// opcode byte.
    pub fn dump_instruction_history(&self) -> (s: String)
        ensures
            s@ == ascii_view(spec_history_rows(self.history@)),
    {
        let mut out: Vec<u8> = Vec::new();
        let mut i: usize = 0;
        while i < self.history.len()
            invariant
                i <= self.history@.len(),
                out@ =~= spec_history_rows(self.history@.subrange(0, i as int)),
            decreases self.history@.len() - i,
        {
            let (flat, op) = self.history[i];
            let ghost pre = out@;
            if flat < 0x100000 {
                push_hex5_upper(&mut out, flat as usize);
            } else {
                push_hex5_upper(&mut out, 0);
            }
            out.push(0x20);
            push_hex2(&mut out, op);
            out.push(0x0a);
            i = i + 1;
            proof {
                assert(out@ =~= pre + spec_history_row(self.history@[i - 1]));
                assert(self.history@.subrange(0, i as int).drop_last() =~= self.history@.subrange(
                    0,
                    i - 1,
                ));
                assert(out@ =~= spec_history_rows(self.history@.subrange(0, i as int)));
            }
        }
        proof {
            assert(self.history@.subrange(0, self.history@.len() as int) =~= self.history@);
            lemma_history_rows_ascii(self.history@);
        }
        ascii_to_string(&out)
    }
}

/// A step never touches the devices' tick counters, the keyboard latch or
/// the scan-code count: port input and output reach only the port
/// registers.
pub proof fn lemma_step_preserves_counters(
    pre: Cpu,
    post: Cpu,
    pre_dev: Devices,
    post_dev: Devices,
    io_bus: IoBusInterface,
    mem: Seq<u8>,
    r: Result<(), CpuError>,
)
    requires
        spec_step_post(pre, post, pre_dev, post_dev, io_bus, mem, r),
    ensures
        post_dev.ppi.kb_count() == pre_dev.ppi.kb_count(),
        post_dev.ppi.kb_byte() == pre_dev.ppi.kb_byte(),
        post_dev.pit.cycles == pre_dev.pit.cycles,
        post_dev.fdc.cycles == pre_dev.fdc.cycles,
        post_dev.hdc.cycles == pre_dev.hdc.cycles,
        post_dev.cga.cycles == pre_dev.cga.cycles,
        post_dev.dma.refresh_count == pre_dev.dma.refresh_count,
{
    let flat = spec_flat(pre.cs, pre.ip);
    let op = mem[flat];
    if op == OPCODE_IN_AL_IMM8 {
        let port = mem[(flat + 1) % 0x100000] as u16;
        match io_bus.binding(port) {
            Option::None => {},
            Option::Some(kind) => {
                crate::io::lemma_io_preserves_counters(pre_dev, kind, port, 0);
            },
        }
    } else if op == OPCODE_OUT_IMM8_AL {
        let port = mem[(flat + 1) % 0x100000] as u16;
        match io_bus.binding(port) {
            Option::None => {},
            Option::Some(kind) => {
                crate::io::lemma_io_preserves_counters(pre_dev, kind, port, pre.al);
            },
        }
    }
}

/// One history row: five address digits, a space, the opcode, a newline.
pub open spec fn spec_history_row(entry: (u32, u8)) -> Seq<u8> {
    let a: int = if entry.0 < 0x100000 {
        entry.0 as int
    } else {
        0
    };
    spec_hex5_upper(a) + seq![0x20u8] + spec_hex2(entry.1) + seq![0x0au8]
}

/// The whole history, one row per fetch, oldest first.
pub open spec fn spec_history_rows(h: Seq<(u32, u8)>) -> Seq<u8>
    decreases h.len(),
{
    if h.len() == 0 {
        Seq::<u8>::empty()
    } else {
        spec_history_rows(h.drop_last()) + spec_history_row(h.last())
    }
}

proof fn lemma_history_rows_ascii(h: Seq<(u32, u8)>)
    ensures
        all_ascii(spec_history_rows(h)),
    decreases h.len(),
{
    if h.len() > 0 {
        lemma_history_rows_ascii(h.drop_last());
        let prev = spec_history_rows(h.drop_last());
        let row = spec_history_row(h.last());
        let whole = spec_history_rows(h);
        assert forall|i: int| 0 <= i < whole.len() implies whole[i] < 128 by {
            if i < prev.len() {
                assert(prev[i] < 128);
            } else {
                assert(whole[i] == row[i - prev.len()]);
            }
        }
    }
}

/// The describing text of a processor error.
pub open spec fn spec_cpu_error_text(e: CpuError) -> Seq<char> {
    match e {
        CpuError::UnhandledInstruction(op) => "unhandled opcode "@ + ascii_view(spec_hex2(op)),
    }
}

impl CpuError {
    /// The error as text: the condition and the opcode byte.
    pub fn describe(&self) -> (s: String)
        ensures
            s@ == spec_cpu_error_text(*self),
    {
        match self {
            CpuError::UnhandledInstruction(op) => {
                let mut s = String::from_str("unhandled opcode ");
                let hx = hex2_string(*op);
                s.append(hx.as_str());
                s
            },
        }
    }
}

/// Adds an offset to a 16-bit code pointer, wrapping around the segment.
fn wrap_add(x: u16, d: u16) -> (r: u16)
    requires
        d <= 4,
    ensures
        r == (x + d) % 0x10000,
{
    if x <= 0xFFFF - d {
        x + d
    } else {
        let r = d - (0xFFFF - x) - 1;
        r
    }
}

} // verus!
