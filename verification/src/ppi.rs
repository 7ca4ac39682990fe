//! Model of the programmable peripheral interface. The model keeps what the
//! core observes: the keyboard data latch (the chip has no buffer — a new
//! scan code overwrites the last), the output port, the command register,
//! the DIP-switch image derived from the machine configuration, and a count
//! of scan codes received.

use crate::machine::{MachineType, VideoType};
use crate::text::{ascii_view, dec_string, hex2_string, spec_dec_str, spec_hex2};
use vstd::prelude::*;

verus! {

pub const PPI_PORT_A: u16 = 0x60;

pub const PPI_PORT_B: u16 = 0x61;

pub const PPI_PORT_C: u16 = 0x62;

pub const PPI_COMMAND_PORT: u16 = 0x63;

/// Snapshot of the interface in string form.
pub struct PpiStringState {
    pub port_a: String,
    pub port_b: String,
    pub kb_count: String,
}

/// The programmable peripheral interface.
pub struct Ppi {
    pub machine_type: MachineType,
    pub video_type: VideoType,
    pub port_a: u8,
    pub port_b: u8,
    pub command: u8,
    pub kb_count: u64,
}

/// The DIP-switch image the interface reports for a machine configuration:
/// one diskette drive pair installed, the video class in bits four and five,
/// the drive-count encoding in bits six and seven.
pub open spec fn spec_dip_switches(machine_type: MachineType, video_type: VideoType) -> u8 {
    let video_bits: u8 = match video_type {
        VideoType::MDA => 0x30,
        VideoType::CGA => 0x20,
        VideoType::EGA => 0x10,
        VideoType::VGA => 0x10,
    };
    (0x41u8 | video_bits) as u8
}

impl Ppi {
    /// The keyboard data latch.
    pub open spec fn kb_byte(&self) -> u8 {
        self.port_a
    }

    /// How many scan codes have been latched since power-on.
    pub open spec fn kb_count(&self) -> u64 {
        self.kb_count
    }

    /// The output port.
    pub open spec fn port_b(&self) -> u8 {
        self.port_b
    }

    /// The command register.
    pub open spec fn command(&self) -> u8 {
        self.command
    }

    pub open spec fn spec_machine_type(&self) -> MachineType {
        self.machine_type
    }

    pub open spec fn spec_video_type(&self) -> VideoType {
        self.video_type
    }

    pub fn new(machine_type: MachineType, video_type: VideoType) -> (ppi: Ppi)
        ensures
            ppi.kb_byte() == 0,
            ppi.kb_count() == 0,
            ppi.port_b() == 0,
            ppi.command() == 0,
            ppi.spec_machine_type() == machine_type,
            ppi.spec_video_type() == video_type,
    {
        Ppi { machine_type, video_type, port_a: 0, port_b: 0, command: 0, kb_count: 0 }
    }

    /// Latches one keyboard scan code, overwriting the previous one.
    pub fn send_keyboard(&mut self, kb_byte: u8)
        requires
            old(self).kb_count() < u64::MAX,
        ensures
            final(self).kb_byte() == kb_byte,
            final(self).kb_count() == old(self).kb_count() + 1,
            final(self).port_b() == old(self).port_b(),
            final(self).command() == old(self).command(),
            final(self).spec_machine_type() == old(self).spec_machine_type(),
            final(self).spec_video_type() == old(self).spec_video_type(),
    {
        self.port_a = kb_byte;
        self.kb_count = self.kb_count + 1;
    }

    /// Port interface: port A reads the keyboard latch, port B the output
    /// port, port C the DIP-switch image, and the command port zero.
    pub fn read_port(&self, port: u16) -> (r: u8)
        ensures
            r == spec_ppi_read(*self, port),
            port == PPI_PORT_A ==> r == self.kb_byte(),
            port == PPI_PORT_B ==> r == self.port_b(),
            port == PPI_PORT_C ==> r == spec_dip_switches(
                self.spec_machine_type(),
                self.spec_video_type(),
            ),
            !(port == PPI_PORT_A || port == PPI_PORT_B || port == PPI_PORT_C) ==> r == 0,
    {
        if port == PPI_PORT_A {
            self.port_a
        } else if port == PPI_PORT_B {
            self.port_b
        } else if port == PPI_PORT_C {
            let video_bits: u8 = match self.video_type {
                VideoType::MDA => 0x30,
                VideoType::CGA => 0x20,
                VideoType::EGA => 0x10,
                VideoType::VGA => 0x10,
            };
            0x41u8 | video_bits
        } else {
            0
        }
    }

    /// Port interface: port B and the command port are writable; writes to
    /// the input ports are ignored.
    pub fn write_port(&mut self, port: u16, data: u8)
        ensures
            *final(self) == spec_ppi_write(*old(self), port, data),
            final(self).kb_byte() == old(self).kb_byte(),
            final(self).kb_count() == old(self).kb_count(),
            final(self).spec_machine_type() == old(self).spec_machine_type(),
            final(self).spec_video_type() == old(self).spec_video_type(),
            port == PPI_PORT_B ==> final(self).port_b() == data && final(self).command() == old(
                self,
            ).command(),
            port == PPI_COMMAND_PORT ==> final(self).command() == data && final(self).port_b()
                == old(self).port_b(),
            !(port == PPI_PORT_B || port == PPI_COMMAND_PORT) ==> *final(self) == *old(self),
    {
        if port == PPI_PORT_B {
            self.port_b = data;
        } else if port == PPI_COMMAND_PORT {
            self.command = data;
        }
    }

    /// The interface has no timed behaviour the core observes: a tick
    /// changes nothing.
    pub fn run(&mut self, cycles: u32)
        ensures
            *final(self) == *old(self),
    {
    }

    /// The keyboard latch, the output port and the scan-code count in string
    /// form.
    pub fn get_string_state(&self) -> (state: PpiStringState)
        ensures
            state.port_a@ == ascii_view(spec_hex2(self.kb_byte())),
            state.port_b@ == ascii_view(spec_hex2(self.port_b())),
            state.kb_count@ == ascii_view(spec_dec_str(self.kb_count() as int)),
    {
        PpiStringState {
            port_a: hex2_string(self.port_a),
            port_b: hex2_string(self.port_b),
            kb_count: dec_string(self.kb_count),
        }
    }
}

/// The byte a port read returns: the keyboard latch, the output port, the
/// DIP-switch image, or zero.
pub open spec fn spec_ppi_read(ppi: Ppi, port: u16) -> u8 {
    if port == PPI_PORT_A {
        ppi.kb_byte()
    } else if port == PPI_PORT_B {
        ppi.port_b()
    } else if port == PPI_PORT_C {
        spec_dip_switches(ppi.spec_machine_type(), ppi.spec_video_type())
    } else {
        0
    }
}

/// The interface after a port write: only the output port and the command
/// register are writable.
pub open spec fn spec_ppi_write(pre: Ppi, port: u16, data: u8) -> Ppi {
    if port == PPI_PORT_B {
        Ppi { port_b: data, ..pre }
    } else if port == PPI_COMMAND_PORT {
        Ppi { command: data, ..pre }
    } else {
        pre
    }
}

} // verus!
