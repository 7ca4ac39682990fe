//! Model of the hard-disk controller. The model keeps the DIP-switch image
//! it was built with, the last command byte and the interrupt mask port, and
//! owes a completion interrupt for each command byte written: the next tick
//! delivers it.

use crate::pic::Pic;
use crate::text::{ascii_view, hex2_string, spec_hex2};
use vstd::prelude::*;

verus! {

pub const HDC_DATA_REGISTER: u16 = 0x320;

pub const HDC_STATUS_REGISTER: u16 = 0x321;

pub const HDC_READ_DIP_REGISTER: u16 = 0x322;

pub const HDC_WRITE_MASK_REGISTER: u16 = 0x323;

/// Interrupt line the controller raises.
pub const HDC_IRQ: u8 = 5;

/// DIP-switch image for two drives of the second supported geometry.
pub const DRIVE_TYPE2_DIP: u8 = 0x0A;

/// The hard-disk controller.
pub struct HardDiskController {
    pub dip: u8,
    pub last_command: u8,
    pub mask: u8,
    pub pending_interrupt: bool,
    pub cycles: u64,
}

impl HardDiskController {
    pub fn new(dip: u8) -> (hdc: HardDiskController)
        ensures
            hdc.dip == dip,
            hdc.last_command == 0,
            hdc.mask == 0,
            !hdc.pending_interrupt,
            hdc.cycles == 0,
    {
        HardDiskController { dip, last_command: 0, mask: 0, pending_interrupt: false, cycles: 0 }
    }

    /// Port interface: the DIP register reads back the switch image,
    /// everything else reads as zero (the controller idle).
    pub fn read_port(&self, port: u16) -> (r: u8)
        ensures
            r == spec_hdc_read(*self, port),
            port == HDC_READ_DIP_REGISTER ==> r == self.dip,
            port != HDC_READ_DIP_REGISTER ==> r == 0,
    {
        if port == HDC_READ_DIP_REGISTER {
            self.dip
        } else {
            0
        }
    }

    /// Port interface: a data write stores the command byte and makes the
    /// controller owe a completion interrupt; a mask write stores the mask.
    pub fn write_port(&mut self, port: u16, data: u8)
        ensures
            *final(self) == spec_hdc_write(*old(self), port, data),
            final(self).cycles == old(self).cycles,
            final(self).dip == old(self).dip,
            port == HDC_DATA_REGISTER ==> {
                &&& final(self).last_command == data
                &&& final(self).pending_interrupt
                &&& final(self).mask == old(self).mask
            },
            port == HDC_WRITE_MASK_REGISTER ==> {
                &&& final(self).mask == data
                &&& final(self).last_command == old(self).last_command
                &&& final(self).pending_interrupt == old(self).pending_interrupt
            },
            !(port == HDC_DATA_REGISTER || port == HDC_WRITE_MASK_REGISTER) ==> *final(self)
                == *old(self),
    {
        if port == HDC_DATA_REGISTER {
            self.last_command = data;
            self.pending_interrupt = true;
        } else if port == HDC_WRITE_MASK_REGISTER {
            self.mask = data;
        }
    }

    /// One tick: delivers the completion interrupt the controller owes, if
    /// any.
    pub fn run(&mut self, pic: &mut Pic, cycles: u32)
        requires
            old(self).cycles + cycles <= u64::MAX,
        ensures
            final(self).cycles == old(self).cycles + cycles,
            final(self).dip == old(self).dip,
            final(self).last_command == old(self).last_command,
            final(self).mask == old(self).mask,
            !final(self).pending_interrupt,
            old(self).pending_interrupt ==> final(pic).irr() == old(pic).irr() | (1u8 << HDC_IRQ),
            !old(self).pending_interrupt ==> *final(pic) == *old(pic),
            final(pic).imr() == old(pic).imr(),
            final(pic).isr() == old(pic).isr(),
    {
        if self.pending_interrupt {
            pic.request_interrupt(HDC_IRQ);
            self.pending_interrupt = false;
        }
        self.cycles = self.cycles + cycles as u64;
    }

    /// The last command byte in string form.
    pub fn command_string(&self) -> (s: String)
        ensures
            s@ == ascii_view(spec_hex2(self.last_command)),
    {
        hex2_string(self.last_command)
    }
}

/// The byte a port read returns: the DIP-switch image, or zero.
pub open spec fn spec_hdc_read(hdc: HardDiskController, port: u16) -> u8 {
    if port == HDC_READ_DIP_REGISTER {
        hdc.dip
    } else {
        0
    }
}

/// The controller after a port write.
pub open spec fn spec_hdc_write(pre: HardDiskController, port: u16, data: u8) -> HardDiskController {
    if port == HDC_DATA_REGISTER {
        HardDiskController { last_command: data, pending_interrupt: true, ..pre }
    } else if port == HDC_WRITE_MASK_REGISTER {
        HardDiskController { mask: data, ..pre }
    } else {
        pre
    }
}

} // verus!
