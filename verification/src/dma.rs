//! Model of the DMA controller. The model keeps the per-channel address,
//! word-count, page, mode and mask registers with the shared byte flip-flop,
//! and services the DRAM-refresh requests the interval timer lodges: one
//! dummy transfer per serviced request, counted.

use crate::text::{ascii_view, dec_string, hex4_string, spec_dec_str, spec_hex4};
use vstd::prelude::*;

verus! {

pub const DMA_CHANNEL_0_ADDR_PORT: u16 = 0x00;

pub const DMA_CHANNEL_0_WC_PORT: u16 = 0x01;

pub const DMA_CHANNEL_1_ADDR_PORT: u16 = 0x02;

pub const DMA_CHANNEL_1_WC_PORT: u16 = 0x03;

pub const DMA_CHANNEL_2_ADDR_PORT: u16 = 0x04;

pub const DMA_CHANNEL_2_WC_PORT: u16 = 0x05;

pub const DMA_CHANNEL_3_ADDR_PORT: u16 = 0x06;

pub const DMA_CHANNEL_3_WC_PORT: u16 = 0x07;

pub const DMA_COMMAND_REGISTER: u16 = 0x08;

pub const DMA_WRITE_REQ_REGISTER: u16 = 0x09;

pub const DMA_CHANNEL_MASK_REGISTER: u16 = 0x0A;

pub const DMA_CHANNEL_MODE_REGISTER: u16 = 0x0B;

pub const DMA_CLEAR_FLIPFLOP: u16 = 0x0C;

pub const DMA_MASTER_CLEAR: u16 = 0x0D;

pub const DMA_CLEAR_MASK_REGISTER: u16 = 0x0E;

pub const DMA_WRITE_MASK_REGISTER: u16 = 0x0F;

pub const DMA_CHANNEL_0_PAGE_REGISTER: u16 = 0x87;

pub const DMA_CHANNEL_1_PAGE_REGISTER: u16 = 0x83;

pub const DMA_CHANNEL_2_PAGE_REGISTER: u16 = 0x81;

pub const DMA_CHANNEL_3_PAGE_REGISTER: u16 = 0x82;

/// One DMA channel's registers.
#[derive(Copy, Clone, Debug, PartialEq, Eq, Structural)]
pub struct DmaChannel {
    pub addr: u16,
    pub wc: u16,
    pub page: u8,
    pub mode: u8,
    pub masked: bool,
}

impl DmaChannel {
    pub fn new() -> (ch: DmaChannel)
        ensures
            ch == (DmaChannel { addr: 0, wc: 0, page: 0, mode: 0, masked: true }),
    {
        DmaChannel { addr: 0, wc: 0, page: 0, mode: 0, masked: true }
    }
}

/// Snapshot of the controller in string form.
pub struct DMAControllerStringState {
    pub ch0_addr: String,
    pub ch0_wc: String,
    pub ch1_addr: String,
    pub ch1_wc: String,
    pub refresh_count: String,
}

/// The DMA controller.
pub struct DMAController {
    pub ch0: DmaChannel,
    pub ch1: DmaChannel,
    pub ch2: DmaChannel,
    pub ch3: DmaChannel,
    pub command: u8,
    pub request_reg: u8,
    pub flip_flop: bool,
    pub refresh_req: bool,
    pub refresh_count: u64,
}

/// A 16-bit register with one byte replaced through the shared flip-flop:
/// the low byte when the flip-flop is clear, the high byte when it is set.
pub open spec fn spec_merge_byte(reg: u16, data: u8, high: bool) -> u16 {
    if high {
        (reg % 256 + data * 256) as u16
    } else {
        ((reg / 256) * 256 + data) as u16
    }
}

/// The byte a 16-bit register read returns through the shared flip-flop.
pub open spec fn spec_read_byte(reg: u16, high: bool) -> u8 {
    if high {
        (reg / 256) as u8
    } else {
        (reg % 256) as u8
    }
}

/// Replaces one byte of a 16-bit register as the shared flip-flop directs.
fn merge_byte(reg: u16, data: u8, high: bool) -> (r: u16)
    ensures
        r == spec_merge_byte(reg, data, high),
{
    if high {
        reg % 256 + data as u16 * 256
    } else {
        (reg / 256) * 256 + data as u16
    }
}

/// Reads one byte of a 16-bit register as the shared flip-flop directs.
fn read_byte(reg: u16, high: bool) -> (r: u8)
    ensures
        r == spec_read_byte(reg, high),
{
    if high {
        (reg / 256) as u8
    } else {
        (reg % 256) as u8
    }
}

impl DMAController {
    pub fn new() -> (dma: DMAController)
        ensures
            dma.ch0 == DmaChannel::spec_default(),
            dma.ch1 == DmaChannel::spec_default(),
            dma.ch2 == DmaChannel::spec_default(),
            dma.ch3 == DmaChannel::spec_default(),
            dma.command == 0,
            dma.request_reg == 0,
            !dma.flip_flop,
            !dma.refresh_req,
            dma.refresh_count == 0,
    {
        DMAController {
            ch0: DmaChannel::new(),
            ch1: DmaChannel::new(),
            ch2: DmaChannel::new(),
            ch3: DmaChannel::new(),
            command: 0,
            request_reg: 0,
            flip_flop: false,
            refresh_req: false,
            refresh_count: 0,
        }
    }

    /// Lodges a DRAM-refresh request, serviced by the next tick.
    pub fn request_refresh(&mut self)
        ensures
            *final(self) == (DMAController { refresh_req: true, ..*old(self) }),
    {
        self.refresh_req = true;
    }

    /// One tick: services a pending refresh request with one counted dummy
    /// transfer; otherwise does nothing.
    pub fn run(&mut self)
        requires
            old(self).refresh_count < u64::MAX,
        ensures
            old(self).refresh_req ==> *final(self) == (DMAController {
                refresh_req: false,
                refresh_count: (old(self).refresh_count + 1) as u64,
                ..*old(self)
            }),
            !old(self).refresh_req ==> *final(self) == *old(self),
    {
        if self.refresh_req {
            self.refresh_req = false;
            self.refresh_count = self.refresh_count + 1;
        }
    }

    /// Port interface: reading an address or word-count port returns the
    /// half the flip-flop selects and toggles it; the mask ports and the
    /// clear ports read as the request register and zero respectively.
    pub fn read_port(&mut self, port: u16) -> (r: u8)
        ensures
            r == spec_dma_read_value(*old(self), port),
            *final(self) == spec_dma_read_next(*old(self), port),
            port == DMA_CHANNEL_0_ADDR_PORT ==> r == spec_read_byte(
                old(self).ch0.addr,
                old(self).flip_flop,
            ),
            port == DMA_CHANNEL_0_WC_PORT ==> r == spec_read_byte(
                old(self).ch0.wc,
                old(self).flip_flop,
            ),
            port == DMA_CHANNEL_1_ADDR_PORT ==> r == spec_read_byte(
                old(self).ch1.addr,
                old(self).flip_flop,
            ),
            port == DMA_CHANNEL_1_WC_PORT ==> r == spec_read_byte(
                old(self).ch1.wc,
                old(self).flip_flop,
            ),
            port == DMA_CHANNEL_2_ADDR_PORT ==> r == spec_read_byte(
                old(self).ch2.addr,
                old(self).flip_flop,
            ),
            port == DMA_CHANNEL_2_WC_PORT ==> r == spec_read_byte(
                old(self).ch2.wc,
                old(self).flip_flop,
            ),
            port == DMA_CHANNEL_3_ADDR_PORT ==> r == spec_read_byte(
                old(self).ch3.addr,
                old(self).flip_flop,
            ),
            port == DMA_CHANNEL_3_WC_PORT ==> r == spec_read_byte(
                old(self).ch3.wc,
                old(self).flip_flop,
            ),
            port <= DMA_CHANNEL_3_WC_PORT ==> *final(self) == (DMAController {
                flip_flop: !old(self).flip_flop,
                ..*old(self)
            }),
            port == DMA_COMMAND_REGISTER ==> r == old(self).command,
            port == DMA_WRITE_REQ_REGISTER ==> r == old(self).request_reg,
            port == DMA_CHANNEL_0_PAGE_REGISTER ==> r == old(self).ch0.page,
            port == DMA_CHANNEL_1_PAGE_REGISTER ==> r == old(self).ch1.page,
            port == DMA_CHANNEL_2_PAGE_REGISTER ==> r == old(self).ch2.page,
            port == DMA_CHANNEL_3_PAGE_REGISTER ==> r == old(self).ch3.page,
            port > DMA_CHANNEL_3_WC_PORT ==> *final(self) == *old(self) && (port
                > DMA_WRITE_REQ_REGISTER && port != DMA_CHANNEL_0_PAGE_REGISTER && port
                != DMA_CHANNEL_1_PAGE_REGISTER && port != DMA_CHANNEL_2_PAGE_REGISTER && port
                != DMA_CHANNEL_3_PAGE_REGISTER ==> r == 0),
    {
        if port <= DMA_CHANNEL_3_WC_PORT {
            let high = self.flip_flop;
            self.flip_flop = !self.flip_flop;
            match port {
                DMA_CHANNEL_0_ADDR_PORT => read_byte(self.ch0.addr, high),
                DMA_CHANNEL_0_WC_PORT => read_byte(self.ch0.wc, high),
                DMA_CHANNEL_1_ADDR_PORT => read_byte(self.ch1.addr, high),
                DMA_CHANNEL_1_WC_PORT => read_byte(self.ch1.wc, high),
                DMA_CHANNEL_2_ADDR_PORT => read_byte(self.ch2.addr, high),
                DMA_CHANNEL_2_WC_PORT => read_byte(self.ch2.wc, high),
                DMA_CHANNEL_3_ADDR_PORT => read_byte(self.ch3.addr, high),
                _ => read_byte(self.ch3.wc, high),
            }
        } else if port == DMA_COMMAND_REGISTER {
            self.command
        } else if port == DMA_WRITE_REQ_REGISTER {
            self.request_reg
        } else if port == DMA_CHANNEL_0_PAGE_REGISTER {
            self.ch0.page
        } else if port == DMA_CHANNEL_1_PAGE_REGISTER {
            self.ch1.page
        } else if port == DMA_CHANNEL_2_PAGE_REGISTER {
            self.ch2.page
        } else if port == DMA_CHANNEL_3_PAGE_REGISTER {
            self.ch3.page
        } else {
            0
        }
    }

    /// Port interface: address and word-count writes go through the shared
    /// flip-flop; the control ports set, clear or load their registers as on
    /// the controller.
    pub fn write_port(&mut self, port: u16, data: u8)
        ensures
            *final(self) == spec_dma_write(*old(self), port, data),
    {
        if port <= DMA_CHANNEL_3_WC_PORT {
            let high = self.flip_flop;
            self.flip_flop = !self.flip_flop;
            match port {
                DMA_CHANNEL_0_ADDR_PORT => {
                    self.ch0.addr = merge_byte(self.ch0.addr, data, high);
                },
                DMA_CHANNEL_0_WC_PORT => {
                    self.ch0.wc = merge_byte(self.ch0.wc, data, high);
                },
                DMA_CHANNEL_1_ADDR_PORT => {
                    self.ch1.addr = merge_byte(self.ch1.addr, data, high);
                },
                DMA_CHANNEL_1_WC_PORT => {
                    self.ch1.wc = merge_byte(self.ch1.wc, data, high);
                },
                DMA_CHANNEL_2_ADDR_PORT => {
                    self.ch2.addr = merge_byte(self.ch2.addr, data, high);
                },
                DMA_CHANNEL_2_WC_PORT => {
                    self.ch2.wc = merge_byte(self.ch2.wc, data, high);
                },
                DMA_CHANNEL_3_ADDR_PORT => {
                    self.ch3.addr = merge_byte(self.ch3.addr, data, high);
                },
                _ => {
                    self.ch3.wc = merge_byte(self.ch3.wc, data, high);
                },
            }
        } else if port == DMA_COMMAND_REGISTER {
            self.command = data;
        } else if port == DMA_WRITE_REQ_REGISTER {
            self.request_reg = data;
        } else if port == DMA_CHANNEL_MASK_REGISTER {
            let set = data & 0x04 != 0;
            match data & 0x03 {
                0 => self.ch0.masked = set,
                1 => self.ch1.masked = set,
                2 => self.ch2.masked = set,
                _ => self.ch3.masked = set,
            }
        } else if port == DMA_CHANNEL_MODE_REGISTER {
            match data & 0x03 {
                0 => self.ch0.mode = data,
                1 => self.ch1.mode = data,
                2 => self.ch2.mode = data,
                _ => self.ch3.mode = data,
            }
        } else if port == DMA_CLEAR_FLIPFLOP {
            self.flip_flop = false;
        } else if port == DMA_MASTER_CLEAR {
            let count = self.refresh_count;
            *self = DMAController::new();
            self.refresh_count = count;
        } else if port == DMA_CLEAR_MASK_REGISTER {
            self.ch0.masked = false;
            self.ch1.masked = false;
            self.ch2.masked = false;
            self.ch3.masked = false;
        } else if port == DMA_WRITE_MASK_REGISTER {
            self.ch0.masked = data & 0x01 != 0;
            self.ch1.masked = data & 0x02 != 0;
            self.ch2.masked = data & 0x04 != 0;
            self.ch3.masked = data & 0x08 != 0;
        } else if port == DMA_CHANNEL_0_PAGE_REGISTER {
            self.ch0.page = data;
        } else if port == DMA_CHANNEL_1_PAGE_REGISTER {
            self.ch1.page = data;
        } else if port == DMA_CHANNEL_2_PAGE_REGISTER {
            self.ch2.page = data;
        } else if port == DMA_CHANNEL_3_PAGE_REGISTER {
            self.ch3.page = data;
        }
    }

    /// The first two channels' address and count registers and the refresh
    /// tally, in string form.
    pub fn get_string_state(&self) -> (state: DMAControllerStringState)
        ensures
            state.ch0_addr@ == ascii_view(spec_hex4(self.ch0.addr)),
            state.ch0_wc@ == ascii_view(spec_hex4(self.ch0.wc)),
            state.ch1_addr@ == ascii_view(spec_hex4(self.ch1.addr)),
            state.ch1_wc@ == ascii_view(spec_hex4(self.ch1.wc)),
            state.refresh_count@ == ascii_view(spec_dec_str(self.refresh_count as int)),
    {
        DMAControllerStringState {
            ch0_addr: hex4_string(self.ch0.addr),
            ch0_wc: hex4_string(self.ch0.wc),
            ch1_addr: hex4_string(self.ch1.addr),
            ch1_wc: hex4_string(self.ch1.wc),
            refresh_count: dec_string(self.refresh_count),
        }
    }
}

impl DmaChannel {
    /// The power-on state of a channel: cleared registers, masked.
    pub open spec fn spec_default() -> DmaChannel {
        DmaChannel { addr: 0, wc: 0, page: 0, mode: 0, masked: true }
    }
}

/// The byte a port read returns.
pub open spec fn spec_dma_read_value(pre: DMAController, port: u16) -> u8 {
    if port == DMA_CHANNEL_0_ADDR_PORT {
        spec_read_byte(pre.ch0.addr, pre.flip_flop)
    } else if port == DMA_CHANNEL_0_WC_PORT {
        spec_read_byte(pre.ch0.wc, pre.flip_flop)
    } else if port == DMA_CHANNEL_1_ADDR_PORT {
        spec_read_byte(pre.ch1.addr, pre.flip_flop)
    } else if port == DMA_CHANNEL_1_WC_PORT {
        spec_read_byte(pre.ch1.wc, pre.flip_flop)
    } else if port == DMA_CHANNEL_2_ADDR_PORT {
        spec_read_byte(pre.ch2.addr, pre.flip_flop)
    } else if port == DMA_CHANNEL_2_WC_PORT {
        spec_read_byte(pre.ch2.wc, pre.flip_flop)
    } else if port == DMA_CHANNEL_3_ADDR_PORT {
        spec_read_byte(pre.ch3.addr, pre.flip_flop)
    } else if port == DMA_CHANNEL_3_WC_PORT {
        spec_read_byte(pre.ch3.wc, pre.flip_flop)
    } else if port == DMA_COMMAND_REGISTER {
        pre.command
    } else if port == DMA_WRITE_REQ_REGISTER {
        pre.request_reg
    } else if port == DMA_CHANNEL_0_PAGE_REGISTER {
        pre.ch0.page
    } else if port == DMA_CHANNEL_1_PAGE_REGISTER {
        pre.ch1.page
    } else if port == DMA_CHANNEL_2_PAGE_REGISTER {
        pre.ch2.page
    } else if port == DMA_CHANNEL_3_PAGE_REGISTER {
        pre.ch3.page
    } else {
        0
    }
}

/// The controller state after a port read: reading a 16-bit register
/// toggles the shared flip-flop.
pub open spec fn spec_dma_read_next(pre: DMAController, port: u16) -> DMAController {
    if port <= DMA_CHANNEL_3_WC_PORT {
        DMAController { flip_flop: !pre.flip_flop, ..pre }
    } else {
        pre
    }
}

/// The controller state after a port write: the register-file semantics of
/// `write_port`.
pub open spec fn spec_dma_write(pre: DMAController, port: u16, data: u8) -> DMAController {
    if port <= DMA_CHANNEL_3_WC_PORT {
        let high = pre.flip_flop;
        let toggled = DMAController { flip_flop: !pre.flip_flop, ..pre };
        if port == DMA_CHANNEL_0_ADDR_PORT {
            DMAController {
                ch0: DmaChannel { addr: spec_merge_byte(pre.ch0.addr, data, high), ..pre.ch0 },
                ..toggled
            }
        } else if port == DMA_CHANNEL_0_WC_PORT {
            DMAController {
                ch0: DmaChannel { wc: spec_merge_byte(pre.ch0.wc, data, high), ..pre.ch0 },
                ..toggled
            }
        } else if port == DMA_CHANNEL_1_ADDR_PORT {
            DMAController {
                ch1: DmaChannel { addr: spec_merge_byte(pre.ch1.addr, data, high), ..pre.ch1 },
                ..toggled
            }
        } else if port == DMA_CHANNEL_1_WC_PORT {
            DMAController {
                ch1: DmaChannel { wc: spec_merge_byte(pre.ch1.wc, data, high), ..pre.ch1 },
                ..toggled
            }
        } else if port == DMA_CHANNEL_2_ADDR_PORT {
            DMAController {
                ch2: DmaChannel { addr: spec_merge_byte(pre.ch2.addr, data, high), ..pre.ch2 },
                ..toggled
            }
        } else if port == DMA_CHANNEL_2_WC_PORT {
            DMAController {
                ch2: DmaChannel { wc: spec_merge_byte(pre.ch2.wc, data, high), ..pre.ch2 },
                ..toggled
            }
        } else if port == DMA_CHANNEL_3_ADDR_PORT {
            DMAController {
                ch3: DmaChannel { addr: spec_merge_byte(pre.ch3.addr, data, high), ..pre.ch3 },
                ..toggled
            }
        } else {
            DMAController {
                ch3: DmaChannel { wc: spec_merge_byte(pre.ch3.wc, data, high), ..pre.ch3 },
                ..toggled
            }
        }
    } else if port == DMA_COMMAND_REGISTER {
        DMAController { command: data, ..pre }
    } else if port == DMA_WRITE_REQ_REGISTER {
        DMAController { request_reg: data, ..pre }
    } else if port == DMA_CHANNEL_MASK_REGISTER {
        let set = data & 0x04 != 0;
        if data & 0x03 == 0 {
            DMAController { ch0: DmaChannel { masked: set, ..pre.ch0 }, ..pre }
        } else if data & 0x03 == 1 {
            DMAController { ch1: DmaChannel { masked: set, ..pre.ch1 }, ..pre }
        } else if data & 0x03 == 2 {
            DMAController { ch2: DmaChannel { masked: set, ..pre.ch2 }, ..pre }
        } else {
            DMAController { ch3: DmaChannel { masked: set, ..pre.ch3 }, ..pre }
        }
    } else if port == DMA_CHANNEL_MODE_REGISTER {
        if data & 0x03 == 0 {
            DMAController { ch0: DmaChannel { mode: data, ..pre.ch0 }, ..pre }
        } else if data & 0x03 == 1 {
            DMAController { ch1: DmaChannel { mode: data, ..pre.ch1 }, ..pre }
        } else if data & 0x03 == 2 {
            DMAController { ch2: DmaChannel { mode: data, ..pre.ch2 }, ..pre }
        } else {
            DMAController { ch3: DmaChannel { mode: data, ..pre.ch3 }, ..pre }
        }
    } else if port == DMA_CLEAR_FLIPFLOP {
        DMAController { flip_flop: false, ..pre }
    } else if port == DMA_MASTER_CLEAR {
        DMAController {
            ch0: DmaChannel::spec_default(),
            ch1: DmaChannel::spec_default(),
            ch2: DmaChannel::spec_default(),
            ch3: DmaChannel::spec_default(),
            command: 0,
            request_reg: 0,
            flip_flop: false,
            refresh_req: false,
            refresh_count: pre.refresh_count,
        }
    } else if port == DMA_CLEAR_MASK_REGISTER {
        DMAController {
            ch0: DmaChannel { masked: false, ..pre.ch0 },
            ch1: DmaChannel { masked: false, ..pre.ch1 },
            ch2: DmaChannel { masked: false, ..pre.ch2 },
            ch3: DmaChannel { masked: false, ..pre.ch3 },
            ..pre
        }
    } else if port == DMA_WRITE_MASK_REGISTER {
        DMAController {
            ch0: DmaChannel { masked: data & 0x01 != 0, ..pre.ch0 },
            ch1: DmaChannel { masked: data & 0x02 != 0, ..pre.ch1 },
            ch2: DmaChannel { masked: data & 0x04 != 0, ..pre.ch2 },
            ch3: DmaChannel { masked: data & 0x08 != 0, ..pre.ch3 },
            ..pre
        }
    } else if port == DMA_CHANNEL_0_PAGE_REGISTER {
        DMAController { ch0: DmaChannel { page: data, ..pre.ch0 }, ..pre }
    } else if port == DMA_CHANNEL_1_PAGE_REGISTER {
        DMAController { ch1: DmaChannel { page: data, ..pre.ch1 }, ..pre }
    } else if port == DMA_CHANNEL_2_PAGE_REGISTER {
        DMAController { ch2: DmaChannel { page: data, ..pre.ch2 }, ..pre }
    } else if port == DMA_CHANNEL_3_PAGE_REGISTER {
        DMAController { ch3: DmaChannel { page: data, ..pre.ch3 }, ..pre }
    } else {
        pre
    }
}

} // verus!
