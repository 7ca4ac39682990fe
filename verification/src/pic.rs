//! Model of the programmable interrupt controller. The model keeps the three
//! registers the core depends on — interrupt requests, the interrupt mask,
//! and the in-service bits — and delivers vectors at a fixed base of 8, the
//! mapping the machine class uses for hardware interrupts.

use crate::text::{ascii_view, hex2_string, spec_hex2};
use vstd::prelude::*;

verus! {

pub const PIC_COMMAND_PORT: u16 = 0x20;

pub const PIC_DATA_PORT: u16 = 0x21;

/// Interrupt vectors are delivered at this base plus the line number.
pub const PIC_VECTOR_BASE: u8 = 8;

/// Command byte that signals end-of-interrupt.
pub const PIC_EOI: u8 = 0x20;

/// Snapshot of the controller registers in string form.
pub struct PicStringState {
    pub irr: String,
    pub imr: String,
    pub isr: String,
}

/// The programmable interrupt controller.
pub struct Pic {
    pub irr: u8,
    pub imr: u8,
    pub isr: u8,
}

impl Pic {
    /// The interrupt request register: one bit per asserted line.
    pub open spec fn irr(&self) -> u8 {
        self.irr
    }

    /// The interrupt mask register: a set bit masks its line.
    pub open spec fn imr(&self) -> u8 {
        self.imr
    }

    /// The in-service register: lines delivered and not yet acknowledged.
    pub open spec fn isr(&self) -> u8 {
        self.isr
    }

    /// Whether `line` is requested and not masked.
    pub open spec fn pending(&self, line: u8) -> bool {
        &&& line < 8
        &&& self.irr() & (1u8 << line) != 0
        &&& self.imr() & (1u8 << line) == 0
    }

    pub fn new() -> (pic: Pic)
        ensures
            pic.irr() == 0,
            pic.imr() == 0,
            pic.isr() == 0,
    {
        Pic { irr: 0, imr: 0, isr: 0 }
    }

    /// Asserts interrupt line `line`.
    pub fn request_interrupt(&mut self, line: u8)
        requires
            line < 8,
        ensures
            final(self).irr() == old(self).irr() | (1u8 << line),
            final(self).imr() == old(self).imr(),
            final(self).isr() == old(self).isr(),
    {
        self.irr = self.irr | (1u8 << line);
    }

    /// Whether any unmasked line is asserted.
    pub fn query_interrupt_line(&self) -> (r: bool)
        ensures
            r == exists|line: u8| self.pending(line),
    {
        let mut line: u8 = 0;
        while line < 8
            invariant
                line <= 8,
                forall|l: u8| l < line ==> !self.pending(l),
            decreases 8 - line,
        {
            if self.irr & (1u8 << line) != 0 && self.imr & (1u8 << line) == 0 {
                assert(self.pending(line));
                return true;
            }
            line = line + 1;
        }
        false
    }

    /// Takes the highest-priority pending line into service and returns its
    /// vector. Line 0 has the highest priority. Returns nothing, and changes
    /// nothing, when no line is pending.
    pub fn get_interrupt_vector(&mut self) -> (r: Option<u8>)
        ensures
            final(self).imr() == old(self).imr(),
            r is None ==> {
                &&& *final(self) == *old(self)
                &&& forall|line: u8| !old(self).pending(line)
            },
            r matches Some(v) ==> {
                &&& PIC_VECTOR_BASE <= v < PIC_VECTOR_BASE + 8
                &&& old(self).pending((v - PIC_VECTOR_BASE) as u8)
                &&& forall|line: u8|
                    line < v - PIC_VECTOR_BASE ==> !old(self).pending(line)
                &&& final(self).irr() == old(self).irr() & !(1u8 << (v - PIC_VECTOR_BASE) as u8)
                &&& final(self).isr() == old(self).isr() | (1u8 << (v - PIC_VECTOR_BASE) as u8)
            },
    {
        let mut line: u8 = 0;
        while line < 8
            invariant
                line <= 8,
                forall|l: u8| l < line ==> !self.pending(l),
                *self == *old(self),
            decreases 8 - line,
        {
            if self.irr & (1u8 << line) != 0 && self.imr & (1u8 << line) == 0 {
                self.irr = self.irr & !(1u8 << line);
                self.isr = self.isr | (1u8 << line);
                return Some(PIC_VECTOR_BASE + line);
            }
            line = line + 1;
        }
        None
    }

    /// Port interface: reading the command port returns the request
    /// register, reading the data port returns the mask register.
    pub fn read_port(&self, port: u16) -> (r: u8)
        ensures
            r == spec_pic_read(*self, port),
            port == PIC_COMMAND_PORT ==> r == self.irr(),
            port != PIC_COMMAND_PORT ==> r == self.imr(),
    {
        if port == PIC_COMMAND_PORT {
            self.irr
        } else {
            self.imr
        }
    }

    /// Port interface: an end-of-interrupt command clears the
    /// highest-priority in-service bit; a write to the data port sets the
    /// mask register.
    pub fn write_port(&mut self, port: u16, data: u8)
        ensures
            *final(self) == spec_pic_write(*old(self), port, data),
            final(self).irr() == old(self).irr(),
            port == PIC_COMMAND_PORT && data == PIC_EOI ==> {
                &&& final(self).imr() == old(self).imr()
                &&& final(self).isr() == spec_clear_lowest(old(self).isr())
            },
            port == PIC_COMMAND_PORT && data != PIC_EOI ==> *final(self) == *old(self),
            port != PIC_COMMAND_PORT ==> {
                &&& final(self).imr() == data
                &&& final(self).isr() == old(self).isr()
            },
    {
        if port == PIC_COMMAND_PORT {
            if data == PIC_EOI {
                self.isr = clear_lowest(self.isr);
            }
        } else {
            self.imr = data;
        }
    }

    /// Resets all three registers.
    pub fn reset(&mut self)
        ensures
            final(self).irr() == 0,
            final(self).imr() == 0,
            final(self).isr() == 0,
    {
        self.irr = 0;
        self.imr = 0;
        self.isr = 0;
    }

    /// The registers in string form, two hexadecimal digits each.
    pub fn get_string_state(&self) -> (state: PicStringState)
        ensures
            state.irr@ == ascii_view(spec_hex2(self.irr())),
            state.imr@ == ascii_view(spec_hex2(self.imr())),
            state.isr@ == ascii_view(spec_hex2(self.isr())),
    {
        PicStringState {
            irr: hex2_string(self.irr),
            imr: hex2_string(self.imr),
            isr: hex2_string(self.isr),
        }
    }
}

/// The byte a port read returns: the request register at the command port,
/// the mask register at the data port.
pub open spec fn spec_pic_read(pic: Pic, port: u16) -> u8 {
    if port == PIC_COMMAND_PORT {
        pic.irr()
    } else {
        pic.imr()
    }
}

/// The controller after a port write: end-of-interrupt retires the
/// highest-priority in-service line; a data write loads the mask register.
pub open spec fn spec_pic_write(pre: Pic, port: u16, data: u8) -> Pic {
    if port == PIC_COMMAND_PORT {
        if data == PIC_EOI {
            Pic { isr: spec_clear_lowest(pre.isr), ..pre }
        } else {
            pre
        }
    } else {
        Pic { imr: data, ..pre }
    }
}

/// `w` with its lowest set bit cleared; zero stays zero.
pub open spec fn spec_clear_lowest(w: u8) -> u8 {
    w & (w - 1) as u8
}

/// Clears the lowest set bit, acknowledging the highest-priority in-service
/// line.
fn clear_lowest(w: u8) -> (r: u8)
    ensures
        r == spec_clear_lowest(w),
{
    if w == 0 {
        proof {
            assert(0u8 & (0u8 - 1) as u8 == 0u8) by (bit_vector);
        }
        0
    } else {
        w & (w - 1)
    }
}

} // verus!
