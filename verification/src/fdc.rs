//! Model of the floppy-disk controller. The model keeps the digital output
//! register, the last command byte, and the interrupt it owes: taking the
//! controller out of reset raises the controller-ready interrupt on the
//! next tick, as the hardware does.

use crate::pic::Pic;
use crate::text::{ascii_view, hex2_string, spec_hex2};
use vstd::prelude::*;

verus! {

pub const FDC_DIGITAL_OUTPUT_REGISTER: u16 = 0x3F2;

pub const FDC_STATUS_REGISTER: u16 = 0x3F4;

pub const FDC_DATA_REGISTER: u16 = 0x3F5;

/// Interrupt line the controller raises.
pub const FDC_IRQ: u8 = 6;

/// Bit of the digital output register that holds the controller out of
/// reset.
pub const FDC_DOR_RESET_BIT: u8 = 0x04;

/// Main status byte the model reports: ready for a command.
pub const FDC_STATUS_READY: u8 = 0x80;

/// The floppy-disk controller.
pub struct FloppyController {
    pub dor: u8,
    pub last_command: u8,
    pub pending_interrupt: bool,
    pub cycles: u64,
}

impl FloppyController {
    pub fn new() -> (fdc: FloppyController)
        ensures
            fdc.dor == 0,
            fdc.last_command == 0,
            !fdc.pending_interrupt,
            fdc.cycles == 0,
    {
        FloppyController { dor: 0, last_command: 0, pending_interrupt: false, cycles: 0 }
    }

    /// Port interface: the status register reads as ready, everything else
    /// as zero.
    pub fn read_port(&self, port: u16) -> (r: u8)
        ensures
            r == spec_fdc_read(*self, port),
            port == FDC_STATUS_REGISTER ==> r == FDC_STATUS_READY,
            port != FDC_STATUS_REGISTER ==> r == 0,
    {
        if port == FDC_STATUS_REGISTER {
            FDC_STATUS_READY
        } else {
            0
        }
    }

    /// Port interface: a digital-output write that releases the reset bit
    /// makes the controller owe a ready interrupt; a data write stores the
    /// command byte.
    pub fn write_port(&mut self, port: u16, data: u8)
        ensures
            *final(self) == spec_fdc_write(*old(self), port, data),
            final(self).cycles == old(self).cycles,
            port == FDC_DIGITAL_OUTPUT_REGISTER ==> {
                &&& final(self).dor == data
                &&& final(self).last_command == old(self).last_command
                &&& final(self).pending_interrupt == (old(self).pending_interrupt || (old(
                    self,
                ).dor & FDC_DOR_RESET_BIT == 0 && data & FDC_DOR_RESET_BIT != 0))
            },
            port == FDC_DATA_REGISTER ==> {
                &&& final(self).last_command == data
                &&& final(self).dor == old(self).dor
                &&& final(self).pending_interrupt == old(self).pending_interrupt
            },
            !(port == FDC_DIGITAL_OUTPUT_REGISTER || port == FDC_DATA_REGISTER) ==> *final(self)
                == *old(self),
    {
        if port == FDC_DIGITAL_OUTPUT_REGISTER {
            if self.dor & FDC_DOR_RESET_BIT == 0 && data & FDC_DOR_RESET_BIT != 0 {
                self.pending_interrupt = true;
            }
            self.dor = data;
        } else if port == FDC_DATA_REGISTER {
            self.last_command = data;
        }
    }

    /// One tick: delivers the interrupt the controller owes, if any.
    pub fn run(&mut self, pic: &mut Pic, cycles: u32)
        requires
            old(self).cycles + cycles <= u64::MAX,
        ensures
            final(self).cycles == old(self).cycles + cycles,
            final(self).dor == old(self).dor,
            final(self).last_command == old(self).last_command,
            !final(self).pending_interrupt,
            old(self).pending_interrupt ==> final(pic).irr() == old(pic).irr() | (1u8 << FDC_IRQ),
            !old(self).pending_interrupt ==> *final(pic) == *old(pic),
            final(pic).imr() == old(pic).imr(),
            final(pic).isr() == old(pic).isr(),
    {
        if self.pending_interrupt {
            pic.request_interrupt(FDC_IRQ);
            self.pending_interrupt = false;
        }
        self.cycles = self.cycles + cycles as u64;
    }

    /// The digital output register in string form.
    pub fn dor_string(&self) -> (s: String)
        ensures
            s@ == ascii_view(spec_hex2(self.dor)),
    {
        hex2_string(self.dor)
    }
}

/// The byte a port read returns: the ready status, or zero.
pub open spec fn spec_fdc_read(fdc: FloppyController, port: u16) -> u8 {
    if port == FDC_STATUS_REGISTER {
        FDC_STATUS_READY
    } else {
        0
    }
}

/// The controller after a port write.
pub open spec fn spec_fdc_write(pre: FloppyController, port: u16, data: u8) -> FloppyController {
    if port == FDC_DIGITAL_OUTPUT_REGISTER {
        FloppyController {
            dor: data,
            pending_interrupt: pre.pending_interrupt || (pre.dor & FDC_DOR_RESET_BIT == 0 && data
                & FDC_DOR_RESET_BIT != 0),
            ..pre
        }
    } else if port == FDC_DATA_REGISTER {
        FloppyController { last_command: data, ..pre }
    } else {
        pre
    }
}

} // verus!
