//! The I/O port bus: a sparse mapping from 16-bit port numbers to the device
//! bound at each port, and the dispatch of port reads and writes to the
//! bound device. A port belongs to at most one device; binding a port twice
//! is a wiring error reported at registration. Unbound ports read as 0xFF
//! and ignore writes; the bus itself charges no cycles.

use crate::cga::{spec_cga_read, spec_cga_write, CGACard};
use crate::dma::{spec_dma_read_next, spec_dma_read_value, spec_dma_write, DMAController};
use crate::fdc::{spec_fdc_read, spec_fdc_write, FloppyController};
use crate::hdc::{spec_hdc_read, spec_hdc_write, HardDiskController};
use crate::machine::{MachineType, VideoType};
use crate::pic::{spec_pic_read, spec_pic_write, Pic};
use crate::pit::{spec_pit_read_next, spec_pit_read_value, spec_pit_write,
    ProgrammableIntervalTimer};
use crate::ppi::{spec_ppi_read, spec_ppi_write, Ppi};
use vstd::prelude::*;

verus! {

/// Number of ports in the 16-bit port space.
pub const PORT_SPACE: usize = 65536;

/// Value an unbound port reads as.
pub const UNBOUND_PORT_VALUE: u8 = 0xFF;

/// The device kinds that can be bound to a port.
#[derive(Copy, Clone, Debug, PartialEq, Eq, Structural)]
pub enum DeviceKind {
    Pic,
    Pit,
    Ppi,
    Dma,
    Fdc,
    Hdc,
    Cga,
}

/// A handler binding: the device that answers at a port.
#[derive(Copy, Clone, Debug, PartialEq, Eq, Structural)]
pub struct IoHandler {
    pub device: DeviceKind,
}

impl IoHandler {
    pub fn new(device: DeviceKind) -> (h: IoHandler)
        ensures
            h.device == device,
    {
        IoHandler { device }
    }
}

/// Error returned when a port is registered twice.
#[derive(Copy, Clone, Debug, PartialEq, Eq, Structural)]
pub enum IoError {
    PortInUse,
}

/// The peripherals of the machine, gathered so that port dispatch can reach
/// whichever one a port is bound to.
pub struct Devices {
    pub pic: Pic,
    pub pit: ProgrammableIntervalTimer,
    pub ppi: Ppi,
    pub dma: DMAController,
    pub fdc: FloppyController,
    pub hdc: HardDiskController,
    pub cga: CGACard,
}

/// The byte a dispatched port read returns.
pub open spec fn spec_io_read_value(devices: Devices, kind: DeviceKind, port: u16) -> u8 {
    match kind {
        DeviceKind::Pic => spec_pic_read(devices.pic, port),
        DeviceKind::Pit => spec_pit_read_value(devices.pit, port),
        DeviceKind::Ppi => spec_ppi_read(devices.ppi, port),
        DeviceKind::Dma => spec_dma_read_value(devices.dma, port),
        DeviceKind::Fdc => spec_fdc_read(devices.fdc, port),
        DeviceKind::Hdc => spec_hdc_read(devices.hdc, port),
        DeviceKind::Cga => spec_cga_read(devices.cga, port),
    }
}

/// The devices after a dispatched port read: only the timer and the DMA
/// controller change, through their read flip-flops.
pub open spec fn spec_io_read_next(devices: Devices, kind: DeviceKind, port: u16) -> Devices {
    match kind {
        DeviceKind::Pit => Devices { pit: spec_pit_read_next(devices.pit, port), ..devices },
        DeviceKind::Dma => Devices { dma: spec_dma_read_next(devices.dma, port), ..devices },
        _ => devices,
    }
}

/// The devices after a dispatched port write.
pub open spec fn spec_io_write_next(
    devices: Devices,
    kind: DeviceKind,
    port: u16,
    data: u8,
) -> Devices {
    match kind {
        DeviceKind::Pic => Devices { pic: spec_pic_write(devices.pic, port, data), ..devices },
        DeviceKind::Pit => Devices { pit: spec_pit_write(devices.pit, port, data), ..devices },
        DeviceKind::Ppi => Devices { ppi: spec_ppi_write(devices.ppi, port, data), ..devices },
        DeviceKind::Dma => Devices { dma: spec_dma_write(devices.dma, port, data), ..devices },
        DeviceKind::Fdc => Devices { fdc: spec_fdc_write(devices.fdc, port, data), ..devices },
        DeviceKind::Hdc => Devices { hdc: spec_hdc_write(devices.hdc, port, data), ..devices },
        DeviceKind::Cga => Devices { cga: spec_cga_write(devices.cga, port, data), ..devices },
    }
}

impl Devices {
    pub fn new(machine_type: MachineType, video_type: VideoType, hdc_dip: u8) -> (devices:
        Devices)
        ensures
            devices.pic.irr() == 0 && devices.pic.imr() == 0 && devices.pic.isr() == 0,
            devices.pit == (ProgrammableIntervalTimer {
                c0: crate::pit::PitChannel::spec_default(),
                c1: crate::pit::PitChannel::spec_default(),
                c2: crate::pit::PitChannel::spec_default(),
                control: 0,
                cycles: 0,
            }),
            devices.ppi.kb_byte() == 0 && devices.ppi.kb_count() == 0 && devices.ppi.port_b()
                == 0 && devices.ppi.command() == 0,
            devices.ppi.spec_machine_type() == machine_type,
            devices.ppi.spec_video_type() == video_type,
            !devices.dma.refresh_req && devices.dma.refresh_count == 0,
            !devices.fdc.pending_interrupt && devices.fdc.cycles == 0,
            !devices.hdc.pending_interrupt && devices.hdc.cycles == 0,
            devices.hdc.dip == hdc_dip,
            devices.cga.cycles == 0,
    {
        Devices {
            pic: Pic::new(),
            pit: ProgrammableIntervalTimer::new(),
            ppi: Ppi::new(machine_type, video_type),
            dma: DMAController::new(),
            fdc: FloppyController::new(),
            hdc: HardDiskController::new(hdc_dip),
            cga: CGACard::new(),
        }
    }
}

/// A dispatched port access never touches the devices' tick counters, the
/// keyboard latch or the scan-code count: those move only through the
/// scheduler.
pub proof fn lemma_io_preserves_counters(d: Devices, kind: DeviceKind, port: u16, data: u8)
    ensures
        spec_io_read_next(d, kind, port).ppi.kb_count() == d.ppi.kb_count(),
        spec_io_read_next(d, kind, port).ppi.kb_byte() == d.ppi.kb_byte(),
        spec_io_read_next(d, kind, port).pit.cycles == d.pit.cycles,
        spec_io_read_next(d, kind, port).fdc.cycles == d.fdc.cycles,
        spec_io_read_next(d, kind, port).hdc.cycles == d.hdc.cycles,
        spec_io_read_next(d, kind, port).cga.cycles == d.cga.cycles,
        spec_io_read_next(d, kind, port).dma.refresh_count == d.dma.refresh_count,
        spec_io_write_next(d, kind, port, data).ppi.kb_count() == d.ppi.kb_count(),
        spec_io_write_next(d, kind, port, data).ppi.kb_byte() == d.ppi.kb_byte(),
        spec_io_write_next(d, kind, port, data).pit.cycles == d.pit.cycles,
        spec_io_write_next(d, kind, port, data).fdc.cycles == d.fdc.cycles,
        spec_io_write_next(d, kind, port, data).hdc.cycles == d.hdc.cycles,
        spec_io_write_next(d, kind, port, data).cga.cycles == d.cga.cycles,
        spec_io_write_next(d, kind, port, data).dma.refresh_count == d.dma.refresh_count,
{
}

/// The I/O port bus: one optional handler binding per port.
pub struct IoBusInterface {
    handlers: Vec<Option<DeviceKind>>,
}

impl IoBusInterface {
    /// The binding table, one entry per port.
    pub closed spec fn bindings(&self) -> Seq<Option<DeviceKind>> {
        self.handlers@
    }

    /// The table spans the whole port space.
    pub open spec fn wf(&self) -> bool {
        self.bindings().len() == PORT_SPACE
    }

    /// The device bound at `port`.
    pub open spec fn binding(&self, port: u16) -> Option<DeviceKind> {
        self.bindings()[port as int]
    }

    pub fn new() -> (bus: IoBusInterface)
        ensures
            bus.wf(),
            forall|port: u16| bus.binding(port) is None,
    {
        let bus = IoBusInterface { handlers: vec![None; PORT_SPACE] };
        bus
    }

    /// Installs `handler` at `port`. Binding a port that already has a
    /// device is refused and changes nothing.
    pub fn register_port_handler(&mut self, port: u16, handler: IoHandler) -> (r: Result<
        (),
        IoError,
    >)
        requires
            old(self).wf(),
        ensures
            final(self).wf(),
            old(self).binding(port) is None ==> {
                &&& r == Ok::<(), IoError>(())
                &&& final(self).binding(port) == Some(handler.device)
                &&& forall|p: u16| p != port ==> final(self).binding(p) == old(self).binding(p)
            },
            old(self).binding(port) is Some ==> {
                &&& r == Err::<(), IoError>(IoError::PortInUse)
                &&& *final(self) == *old(self)
            },
    {
        if self.handlers[port as usize].is_some() {
            return Err(IoError::PortInUse);
        }
        self.handlers[port as usize] = Some(handler.device);
        Ok(())
    }

    /// Reads the port: dispatches to the bound device, or returns the
    /// pull-up pattern for an unbound port.
    pub fn read(&self, devices: &mut Devices, port: u16) -> (r: u8)
        requires
            self.wf(),
        ensures
            self.binding(port) is None ==> r == UNBOUND_PORT_VALUE && *final(devices) == *old(
                devices,
            ),
            self.binding(port) matches Some(kind) ==> {
                &&& r == spec_io_read_value(*old(devices), kind, port)
                &&& *final(devices) == spec_io_read_next(*old(devices), kind, port)
            },
    {
        match self.handlers[port as usize] {
            None => UNBOUND_PORT_VALUE,
            Some(DeviceKind::Pic) => devices.pic.read_port(port),
            Some(DeviceKind::Pit) => devices.pit.read_port(port),
            Some(DeviceKind::Ppi) => devices.ppi.read_port(port),
            Some(DeviceKind::Dma) => devices.dma.read_port(port),
            Some(DeviceKind::Fdc) => devices.fdc.read_port(port),
            Some(DeviceKind::Hdc) => devices.hdc.read_port(port),
            Some(DeviceKind::Cga) => devices.cga.read_port(port),
        }
    }

    /// Writes the port: dispatches to the bound device; a write to an
    /// unbound port is ignored.
    pub fn write(&self, devices: &mut Devices, port: u16, data: u8)
        requires
            self.wf(),
        ensures
            self.binding(port) is None ==> *final(devices) == *old(devices),
            self.binding(port) matches Some(kind) ==> *final(devices) == spec_io_write_next(
                *old(devices),
                kind,
                port,
                data,
            ),
    {
        match self.handlers[port as usize] {
            None => {},
            Some(DeviceKind::Pic) => devices.pic.write_port(port, data),
            Some(DeviceKind::Pit) => devices.pit.write_port(port, data),
            Some(DeviceKind::Ppi) => devices.ppi.write_port(port, data),
            Some(DeviceKind::Dma) => devices.dma.write_port(port, data),
            Some(DeviceKind::Fdc) => devices.fdc.write_port(port, data),
            Some(DeviceKind::Hdc) => devices.hdc.write_port(port, data),
            Some(DeviceKind::Cga) => devices.cga.write_port(port, data),
        }
    }
}

} // verus!
