//! The virtual computer: its construction and wiring, the execution-control
//! state machine, and the scheduler that advances the CPU and every
//! peripheral device in lockstep for a caller-supplied cycle budget.

use crate::bus::{BusInterface, ADDRESS_SPACE};
use crate::cga::CGACard;
use crate::cpu::{
    lemma_step_preserves_counters, spec_cpu_error_text, spec_flat, spec_history_rows,
    spec_step_post, Cpu, CpuError, CpuType,
};
use crate::dma::{DMAController, DMAControllerStringState};
use crate::fdc::FloppyController;
use crate::hdc::{HardDiskController, DRIVE_TYPE2_DIP};
use crate::io::{DeviceKind, Devices, IoBusInterface, IoHandler};
use crate::pic::{Pic, PicStringState, PIC_VECTOR_BASE};
use crate::pit::{PitChannel, PitStringState, ProgrammableIntervalTimer};
use crate::ppi::{Ppi, PpiStringState};
use crate::rom_manager::{
    rom_manager_wf, spec_descs_after_images, spec_find_checkpoint, spec_mask_after_images,
    spec_mem_after_images, spec_mem_after_patches, RomManager,
};
use crate::text::ascii_view;
use crate::{cga, dma, fdc, hdc, pic, pit, ppi};
use std::collections::VecDeque;
use vstd::prelude::*;
use vstd::string::StringExecFns;

verus! {

pub const NUM_FLOPPIES: u32 = 2;

pub const NUM_HDDS: u32 = 2;

pub const MAX_MEMORY_ADDRESS: usize = 0xFFFFF;

/// Fixed average cost, in cycles, of one virtual step of the scheduler.
pub const STEP_CYCLES: u32 = 7;

#[allow(non_camel_case_types)]
#[derive(Copy, Clone, Debug, PartialEq, Eq, Structural)]
pub enum MachineType {
    IBM_PC_5150,
    IBM_XT_5160,
}

#[allow(non_camel_case_types)]
#[derive(Copy, Clone, Debug, PartialEq, Eq, Structural)]
pub enum VideoType {
    MDA,
    CGA,
    EGA,
    VGA,
}

#[derive(Copy, Clone, Debug, PartialEq, Eq, Structural)]
pub enum ExecutionState {
    Paused,
    BreakpointHit,
    Running,
}

/// Caller-facing execution control: the run state plus three one-shot
/// request flags, consumed by the scheduler.
pub struct ExecutionControl {
    pub state: ExecutionState,
    pub do_step: bool,
    pub do_run: bool,
    pub do_reset: bool,
}

impl ExecutionControl {
    pub open spec fn spec_state(&self) -> ExecutionState {
        self.state
    }

    pub open spec fn step_flag(&self) -> bool {
        self.do_step
    }

    pub open spec fn run_flag(&self) -> bool {
        self.do_run
    }

    pub open spec fn reset_flag(&self) -> bool {
        self.do_reset
    }

    pub fn new() -> (ctl: ExecutionControl)
        ensures
            ctl.spec_state() == ExecutionState::Paused,
            !ctl.step_flag(),
            !ctl.run_flag(),
            !ctl.reset_flag(),
    {
        ExecutionControl {
            state: ExecutionState::Paused,
            do_step: false,
            do_run: false,
            do_reset: false,
        }
    }

    pub fn set_state(&mut self, state: ExecutionState)
        ensures
            final(self).spec_state() == state,
            final(self).step_flag() == old(self).step_flag(),
            final(self).run_flag() == old(self).run_flag(),
            final(self).reset_flag() == old(self).reset_flag(),
    {
        self.state = state;
    }

    pub fn get_state(&self) -> (state: ExecutionState)
        ensures
            state == self.spec_state(),
    {
        self.state
    }

    /// Requests a single step; honoured only while paused.
    pub fn do_step(&mut self)
        ensures
            final(self).step_flag(),
            final(self).spec_state() == old(self).spec_state(),
            final(self).run_flag() == old(self).run_flag(),
            final(self).reset_flag() == old(self).reset_flag(),
    {
        self.do_step = true;
    }

    /// Requests free running. Does nothing unless the machine is paused or
    /// stopped at a breakpoint.
    pub fn do_run(&mut self)
        ensures
            final(self).step_flag() == old(self).step_flag(),
            final(self).reset_flag() == old(self).reset_flag(),
            old(self).spec_state() == ExecutionState::Paused || old(self).spec_state()
                == ExecutionState::BreakpointHit ==> {
                &&& final(self).spec_state() == ExecutionState::Running
                &&& final(self).run_flag()
            },
            old(self).spec_state() == ExecutionState::Running ==> *final(self) == *old(self),
    {
        // Run does nothing unless paused or at a breakpoint
        match self.state {
            ExecutionState::Paused => {
                self.do_run = true;
                self.state = ExecutionState::Running;
            },
            ExecutionState::BreakpointHit => {
                // Step out of breakpoint status into running status
                self.do_run = true;
                self.state = ExecutionState::Running;
            },
            _ => {},
        }
    }

    /// Requests a machine reset; consumed by the next `run` call.
    pub fn do_reset(&mut self)
        ensures
            final(self).reset_flag(),
            final(self).spec_state() == old(self).spec_state(),
            final(self).step_flag() == old(self).step_flag(),
            final(self).run_flag() == old(self).run_flag(),
    {
        self.do_reset = true;
    }
}

/// Keeper of the floppy images the machine may mount. Image discovery and
/// file handling live with the caller; the core only holds and hands back
/// the manager.
#[derive(PartialEq, Eq, Structural)]
pub struct FloppyManager {
    pub image_count: u32,
}

impl FloppyManager {
    pub fn new() -> (fm: FloppyManager)
        ensures
            fm.image_count == 0,
    {
        FloppyManager { image_count: 0 }
    }
}

/// All-zero physical memory, the power-on state.
pub open spec fn spec_zero_mem() -> Seq<u8> {
    Seq::new(ADDRESS_SPACE as nat, |i: int| 0u8)
}

/// How many virtual steps a slice of `target` cycles takes: the scheduler
/// spends a full step of `STEP_CYCLES` on any remainder.
pub open spec fn spec_full_steps(target: u32) -> int {
    (target + STEP_CYCLES - 1) / (STEP_CYCLES as int)
}

/// The cycles that `k` whole virtual steps cost.
pub open spec fn spec_steps_cycles(k: int) -> int {
    (STEP_CYCLES as int) * k
}

/// The device bound at each port by the machine wiring.
pub open spec fn spec_port_map(port: u16) -> Option<DeviceKind> {
    if port == pic::PIC_COMMAND_PORT || port == pic::PIC_DATA_PORT {
        Some(DeviceKind::Pic)
    } else if port == ppi::PPI_PORT_A || port == ppi::PPI_PORT_B || port == ppi::PPI_PORT_C
        || port == ppi::PPI_COMMAND_PORT {
        Some(DeviceKind::Ppi)
    } else if port == pit::PIT_CHANNEL_0_DATA_PORT || port == pit::PIT_CHANNEL_1_DATA_PORT
        || port == pit::PIT_CHANNEL_2_DATA_PORT || port == pit::PIT_COMMAND_REGISTER {
        Some(DeviceKind::Pit)
    } else if port <= dma::DMA_WRITE_MASK_REGISTER || port == dma::DMA_CHANNEL_0_PAGE_REGISTER
        || port == dma::DMA_CHANNEL_1_PAGE_REGISTER || port == dma::DMA_CHANNEL_2_PAGE_REGISTER
        || port == dma::DMA_CHANNEL_3_PAGE_REGISTER {
        Some(DeviceKind::Dma)
    } else if port == fdc::FDC_DIGITAL_OUTPUT_REGISTER || port == fdc::FDC_STATUS_REGISTER
        || port == fdc::FDC_DATA_REGISTER {
        Some(DeviceKind::Fdc)
    } else if port == hdc::HDC_DATA_REGISTER || port == hdc::HDC_STATUS_REGISTER || port
        == hdc::HDC_READ_DIP_REGISTER || port == hdc::HDC_WRITE_MASK_REGISTER {
        Some(DeviceKind::Hdc)
    } else if port == cga::CRTC_REGISTER_SELECT || port == cga::CRTC_REGISTER || port
        == cga::CGA_MODE_CONTROL_REGISTER || port == cga::CGA_COLOR_CONTROL_REGISTER || port
        == cga::CGA_STATUS_REGISTER || port == cga::CGA_LIGHTPEN_REGISTER {
        Some(DeviceKind::Cga)
    } else {
        None
    }
}

/// The whole virtual computer.
pub struct Machine {
    pub machine_type: MachineType,
    pub video_type: VideoType,
    pub rom_manager: RomManager,
    pub floppy_manager: FloppyManager,
    pub bus: BusInterface,
    pub io_bus: IoBusInterface,
    pub cpu: Cpu,
    pub devices: Devices,
    pub kb_buf: VecDeque<u8>,
    pub error: bool,
    pub error_str: String,
    pub cpu_cycles: u64,
    pub last_checkpoint: Option<String>,
}

/// What a machine reset does: the processor returns to its reset address,
/// memory is zeroed and the ROM images are stamped back in, and the
/// interval timer and the interrupt controller return to power-on state.
/// The cycle counter, the keyboard queue and the other devices are left as
/// they were.
pub open spec fn machine_reset_rel(pre: Machine, post: Machine) -> bool {
    &&& post.cpu == (Cpu {
        cs: pre.cpu.reset_seg,
        ip: pre.cpu.reset_off,
        al: 0,
        interrupts: false,
        error: false,
        history: post.cpu.history,
        ..pre.cpu
    })
    &&& post.cpu.history@ == Seq::<(u32, u8)>::empty()
    &&& post.bus.mem() == spec_mem_after_images(spec_zero_mem(), pre.rom_manager.images@)
    &&& post.bus.mask() == spec_mask_after_images(pre.bus.mask(), pre.rom_manager.images@)
    &&& post.bus.descriptors() == spec_descs_after_images(
        Seq::empty(),
        pre.rom_manager.images@,
    )
    &&& post.bus.cur() == pre.bus.cur()
    &&& post.devices.pit == (ProgrammableIntervalTimer {
        c0: PitChannel::spec_default(),
        c1: PitChannel::spec_default(),
        c2: PitChannel::spec_default(),
        control: 0,
        cycles: 0,
    })
    &&& post.devices.pic == (Pic { irr: 0, imr: 0, isr: 0 })
    &&& post.devices.ppi == pre.devices.ppi
    &&& post.devices.dma == pre.devices.dma
    &&& post.devices.fdc == pre.devices.fdc
    &&& post.devices.hdc == pre.devices.hdc
    &&& post.devices.cga == pre.devices.cga
    &&& post.kb_buf@ == pre.kb_buf@
    &&& post.error == pre.error
    &&& post.error_str@ == pre.error_str@
    &&& post.last_checkpoint == pre.last_checkpoint
    &&& post.cpu_cycles == pre.cpu_cycles
    &&& post.machine_type == pre.machine_type
    &&& post.video_type == pre.video_type
    &&& post.rom_manager == pre.rom_manager
    &&& post.floppy_manager == pre.floppy_manager
    &&& post.io_bus == pre.io_bus
}

/// Whether the first virtual step of a slice stops on the breakpoint at
/// once: the processor is healthy, the slice is non-empty, a breakpoint is
/// armed and not ignored, and the next instruction sits on it.
pub open spec fn spec_immediate_breakpoint(
    m: Machine,
    target: u32,
    breakpoint: u32,
    ignore_breakpoint: bool,
) -> bool {
    &&& !m.cpu.error
    &&& target > 0
    &&& breakpoint != 0
    &&& !ignore_breakpoint
    &&& spec_flat(m.cpu.cs, m.cpu.ip) == breakpoint
}

/// Exactly one queued scan code moved to the peripheral interface.
pub open spec fn spec_kb_delivered(pre: Machine, post: Machine) -> bool {
    &&& pre.kb_buf@.len() > 0
    &&& post.kb_buf@ == pre.kb_buf@.subrange(1, pre.kb_buf@.len() as int)
    &&& post.devices.ppi.kb_count() == pre.devices.ppi.kb_count() + 1
    &&& post.devices.ppi.kb_byte() == pre.kb_buf@[0]
}

/// The keyboard path untouched: queue, latch and count as they were.
pub open spec fn spec_kb_untouched(pre: Machine, post: Machine) -> bool {
    &&& post.kb_buf@ == pre.kb_buf@
    &&& post.devices.ppi.kb_count() == pre.devices.ppi.kb_count()
    &&& post.devices.ppi.kb_byte() == pre.devices.ppi.kb_byte()
}

/// The checkpoint probe of a virtual step: when a checkpoint label sits
/// at the next instruction's flat address, it is latched; nothing else
/// moves.
pub open spec fn spec_checkpoint_phase(pre: Machine, post: Machine) -> bool {
    let flat = spec_flat(pre.cpu.cs, pre.cpu.ip);
    match spec_find_checkpoint(pre.rom_manager.checkpoints@, flat as u32) {
        Option::None => post == pre,
        Option::Some(l) => {
            &&& post == (Machine { last_checkpoint: post.last_checkpoint, ..pre })
            &&& (post.last_checkpoint matches Some(s) && s@ == l)
        },
    }
}

/// The patch-checkpoint phase: when the next instruction sits on a patch
/// trigger, every patch is written into memory past ROM protection;
/// nothing else moves.
pub open spec fn spec_patch_phase(pre: Machine, post: Machine) -> bool {
    let flat = spec_flat(pre.cpu.cs, pre.cpu.ip);
    if exists|i: int|
        0 <= i < pre.rom_manager.patches@.len() && (#[trigger] pre.rom_manager.patches@[i]).trigger
            == flat as u32 {
        &&& post == (Machine { bus: post.bus, ..pre })
        &&& post.bus.wf()
        &&& post.bus.mem() == spec_mem_after_patches(pre.bus.mem(), pre.rom_manager.patches@)
        &&& post.bus.mask() == pre.bus.mask()
        &&& post.bus.descriptors() == pre.bus.descriptors()
        &&& post.bus.cur() == pre.bus.cur()
    } else {
        post == pre
    }
}

/// The processor phase: one instruction executes against memory and the
/// port bus; on a refused opcode the error state is latched together with
/// the error text and the instruction-history dump.
pub open spec fn spec_cpu_phase(pre: Machine, post: Machine) -> bool {
    exists|r: Result<(), CpuError>|
        {
            &&& #[trigger] spec_step_post(
                pre.cpu,
                post.cpu,
                pre.devices,
                post.devices,
                pre.io_bus,
                pre.bus.mem(),
                r,
            )
            &&& post.bus == pre.bus
            &&& post.machine_type == pre.machine_type
            &&& post.video_type == pre.video_type
            &&& post.rom_manager == pre.rom_manager
            &&& post.floppy_manager == pre.floppy_manager
            &&& post.io_bus == pre.io_bus
            &&& post.kb_buf@ == pre.kb_buf@
            &&& post.cpu_cycles == pre.cpu_cycles
            &&& post.last_checkpoint == pre.last_checkpoint
            &&& (r is Ok ==> post.error == pre.error && post.error_str == pre.error_str)
            &&& (r matches Err(e) ==> post.error && post.error_str@ == spec_cpu_error_text(e)
                + "\n"@ + ascii_view(spec_history_rows(post.cpu.history@)))
        }
}

/// The hardware-interrupt phase: with the interrupt flag set and an
/// unmasked line pending, the highest-priority line is taken into service
/// and the processor vectors through the interrupt table; otherwise
/// nothing moves.
pub open spec fn spec_interrupt_phase(pre: Machine, post: Machine) -> bool {
    if pre.cpu.interrupts && (exists|l: u8| pre.devices.pic.pending(l)) {
        exists|line: u8|
            {
                &&& #[trigger] pre.devices.pic.pending(line)
                &&& (forall|l: u8| l < line ==> !pre.devices.pic.pending(l))
                &&& post == (Machine { cpu: post.cpu, devices: post.devices, ..pre })
                &&& post.devices == (Devices { pic: post.devices.pic, ..pre.devices })
                &&& post.devices.pic == (Pic {
                    irr: pre.devices.pic.irr & !(1u8 << line),
                    imr: pre.devices.pic.imr,
                    isr: pre.devices.pic.isr | (1u8 << line),
                })
                &&& post.cpu == (Cpu {
                    ip: (pre.bus.mem()[(PIC_VECTOR_BASE + line) * 4] + pre.bus.mem()[(
                    PIC_VECTOR_BASE + line) * 4 + 1] * 256) as u16,
                    cs: (pre.bus.mem()[(PIC_VECTOR_BASE + line) * 4 + 2] + pre.bus.mem()[(
                    PIC_VECTOR_BASE + line) * 4 + 3] * 256) as u16,
                    interrupts: false,
                    ..pre.cpu
                })
            }
    } else {
        post == pre
    }
}

/// The keyboard phase: when this step delivers, the front of the queue
/// moves to the interface's latch and interrupt line one is raised;
/// otherwise nothing moves. At most one step per slice delivers.
pub open spec fn spec_keyboard_phase(pre: Machine, post: Machine, delivered: bool) -> bool {
    if delivered {
        &&& pre.kb_buf@.len() > 0
        &&& post == (Machine { kb_buf: post.kb_buf, devices: post.devices, ..pre })
        &&& post.kb_buf@ == pre.kb_buf@.subrange(1, pre.kb_buf@.len() as int)
        &&& post.devices == (Devices {
            ppi: post.devices.ppi,
            pic: post.devices.pic,
            ..pre.devices
        })
        &&& post.devices.ppi == (Ppi {
            port_a: pre.kb_buf@[0],
            kb_count: (pre.devices.ppi.kb_count + 1) as u64,
            ..pre.devices.ppi
        })
        &&& post.devices.pic == (Pic {
            irr: pre.devices.pic.irr | (1u8 << 1u8),
            ..pre.devices.pic
        })
    } else {
        post == pre
    }
}

/// One tick of every device, in the scheduler's fixed order: the DMA
/// controller services a pending refresh, the timer channels count down
/// (channel zero raising interrupt line zero, channel one lodging a fresh
/// refresh request), the adapter and the interface tick, and each disk
/// controller delivers the interrupt it owes.
pub open spec fn spec_devices_tick(d: Devices) -> Devices {
    let dma1 = if d.dma.refresh_req {
        DMAController {
            refresh_req: false,
            refresh_count: (d.dma.refresh_count + 1) as u64,
            ..d.dma
        }
    } else {
        d.dma
    };
    let pic1 = if d.pit.c0.spec_fires(STEP_CYCLES) {
        Pic { irr: d.pic.irr | 1u8, ..d.pic }
    } else {
        d.pic
    };
    let dma2 = if d.pit.c1.spec_fires(STEP_CYCLES) {
        DMAController { refresh_req: true, ..dma1 }
    } else {
        dma1
    };
    let pit1 = ProgrammableIntervalTimer {
        c0: d.pit.c0.spec_tick(STEP_CYCLES),
        c1: d.pit.c1.spec_tick(STEP_CYCLES),
        c2: d.pit.c2.spec_tick(STEP_CYCLES),
        control: d.pit.control,
        cycles: (d.pit.cycles + STEP_CYCLES) as u64,
    };
    let cga1 = CGACard { cycles: (d.cga.cycles + STEP_CYCLES) as u64, ..d.cga };
    let pic2 = if d.fdc.pending_interrupt {
        Pic { irr: pic1.irr | (1u8 << fdc::FDC_IRQ), ..pic1 }
    } else {
        pic1
    };
    let fdc1 = FloppyController {
        pending_interrupt: false,
        cycles: (d.fdc.cycles + STEP_CYCLES) as u64,
        ..d.fdc
    };
    let pic3 = if d.hdc.pending_interrupt {
        Pic { irr: pic2.irr | (1u8 << hdc::HDC_IRQ), ..pic2 }
    } else {
        pic2
    };
    let hdc1 = HardDiskController {
        pending_interrupt: false,
        cycles: (d.hdc.cycles + STEP_CYCLES) as u64,
        ..d.hdc
    };
    Devices { pic: pic3, pit: pit1, ppi: d.ppi, dma: dma2, fdc: fdc1, hdc: hdc1, cga: cga1 }
}

/// One whole virtual step of the scheduler, its phases in their fixed
/// order. A step on a faulted processor only accrues its cycles; a healthy
/// step latches any checkpoint label, installs patches at a patch trigger,
/// executes one instruction, delivers a pending hardware interrupt, moves
/// at most one scan code, ticks every device, and accrues the fixed cost.
pub open spec fn spec_machine_step(pre: Machine, post: Machine, delivered: bool) -> bool {
    if pre.cpu.error {
        &&& !delivered
        &&& post == (Machine { cpu_cycles: (pre.cpu_cycles + STEP_CYCLES) as u64, ..pre })
    } else {
        exists|m1: Machine, m2: Machine, m3: Machine, m4: Machine, m5: Machine|
            #![trigger spec_checkpoint_phase(pre, m1), spec_patch_phase(m1, m2),
                spec_cpu_phase(m2, m3), spec_interrupt_phase(m3, m4),
                spec_keyboard_phase(m4, m5, delivered)]
            {
                &&& spec_checkpoint_phase(pre, m1)
                &&& spec_patch_phase(m1, m2)
                &&& spec_cpu_phase(m2, m3)
                &&& spec_interrupt_phase(m3, m4)
                &&& spec_keyboard_phase(m4, m5, delivered)
                &&& post == (Machine {
                    devices: spec_devices_tick(m5.devices),
                    cpu_cycles: (m5.cpu_cycles + STEP_CYCLES) as u64,
                    ..m5
                })
            }
    }
}

/// The machine `post` is `pre` advanced by `k` whole virtual steps of the
/// scheduler.
pub open spec fn spec_machine_steps(pre: Machine, post: Machine, k: int) -> bool
    decreases k,
{
    if k <= 0 {
        post == pre
    } else {
        exists|mid: Machine, delivered: bool|
            spec_machine_steps(pre, mid, k - 1) && #[trigger] spec_machine_step(
                mid,
                post,
                delivered,
            )
    }
}

impl Machine {
    /// The machine's structural invariant: the buses are well formed, the
    /// ROM manager's contents fit the address space, and no device's tick
    /// counter has outrun the global cycle counter.
    pub open spec fn wf(&self) -> bool {
        &&& self.bus.wf()
        &&& self.io_bus.wf()
        &&& rom_manager_wf(self.rom_manager)
        &&& self.devices.pit.cycles <= self.cpu_cycles
        &&& self.devices.fdc.cycles <= self.cpu_cycles
        &&& self.devices.hdc.cycles <= self.cpu_cycles
        &&& self.devices.cga.cycles <= self.cpu_cycles
        &&& self.devices.dma.refresh_count <= self.cpu_cycles
        &&& self.devices.ppi.kb_count() <= self.cpu_cycles
    }

    /// Builds the machine: wires every device port, stamps the ROM images
    /// into memory, and points the processor at the ROM entry address.
    pub fn new(
        machine_type: MachineType,
        video_type: VideoType,
        rom_manager: RomManager,
        floppy_manager: FloppyManager,
    ) -> (m: Machine)
        requires
            rom_manager_wf(rom_manager),
        ensures
            m.wf(),
            m.machine_type == machine_type,
            m.video_type == video_type,
            m.rom_manager == rom_manager,
            m.floppy_manager == floppy_manager,
            forall|port: u16| m.io_bus.binding(port) == spec_port_map(port),
            m.bus.mem() == spec_mem_after_images(spec_zero_mem(), rom_manager.images@),
            m.bus.mask() == spec_mask_after_images(spec_zero_mem(), rom_manager.images@),
            m.bus.descriptors() == spec_descs_after_images(Seq::empty(), rom_manager.images@),
            m.bus.cur() == 0,
            m.cpu.cpu_type == CpuType::Cpu8186,
            m.cpu.cs == rom_manager.entry_seg,
            m.cpu.ip == rom_manager.entry_off,
            m.cpu.reset_seg == rom_manager.entry_seg,
            m.cpu.reset_off == rom_manager.entry_off,
            !m.cpu.interrupts,
            !m.cpu.error,
            m.devices.pic == (Pic { irr: 0, imr: 0, isr: 0 }),
            m.devices.pit == (ProgrammableIntervalTimer {
                c0: PitChannel::spec_default(),
                c1: PitChannel::spec_default(),
                c2: PitChannel::spec_default(),
                control: 0,
                cycles: 0,
            }),
            m.devices.ppi.kb_count() == 0,
            m.devices.ppi.kb_byte() == 0,
            m.devices.ppi.spec_machine_type() == machine_type,
            m.devices.ppi.spec_video_type() == video_type,
            m.devices.dma.refresh_count == 0 && !m.devices.dma.refresh_req,
            m.devices.fdc.cycles == 0 && !m.devices.fdc.pending_interrupt,
            m.devices.hdc.cycles == 0 && !m.devices.hdc.pending_interrupt && m.devices.hdc.dip
                == DRIVE_TYPE2_DIP,
            m.devices.cga.cycles == 0,
            m.kb_buf@.len() == 0,
            !m.error,
            m.cpu_cycles == 0,
            m.last_checkpoint is None,
    {
        let mut bus = BusInterface::new();
        let mut io_bus = IoBusInterface::new();

        let mut cpu = Cpu::new(CpuType::Cpu8186, 4);
        cpu.reset();

        let devices = Devices::new(machine_type, video_type, DRIVE_TYPE2_DIP);

        wire_ports(&mut io_bus);


        // Load BIOS ROM images
        rom_manager.copy_into_memory(&mut bus);

        // Set the entry point for the ROM (mostly used for diagnostic ROMs
        // that have no far-jump reset vector)
        let rom_entry_point = rom_manager.get_entrypoint();
        cpu.set_reset_address(rom_entry_point.0, rom_entry_point.1);
        cpu.reset_address();

        Machine {
            machine_type,
            video_type,
            rom_manager,
            floppy_manager,
            bus,
            io_bus,
            cpu,
            devices,
            kb_buf: VecDeque::new(),
            error: false,
            error_str: String::new(),
            cpu_cycles: 0,
            last_checkpoint: None,
        }
    }

    /// The label of the most recent ROM checkpoint the processor reached.
    pub fn last_checkpoint(&self) -> (r: &Option<String>)
        ensures
            r == self.last_checkpoint,
    {
        &self.last_checkpoint
    }

    pub fn bus(&self) -> (r: &BusInterface)
        ensures
            r == &self.bus,
    {
        &self.bus
    }

    pub fn mut_bus(&mut self) -> (r: &mut BusInterface)
        ensures
            *r == old(self).bus,
            *final(self) == (Machine { bus: *final(r), ..*old(self) }),
    {
        &mut self.bus
    }

    pub fn cga(&self) -> (r: &CGACard)
        ensures
            r == &self.devices.cga,
    {
        &self.devices.cga
    }

    pub fn cpu(&self) -> (r: &Cpu)
        ensures
            r == &self.cpu,
    {
        &self.cpu
    }

    pub fn fdc(&self) -> (r: &FloppyController)
        ensures
            r == &self.devices.fdc,
    {
        &self.devices.fdc
    }

    pub fn hdc(&self) -> (r: &HardDiskController)
        ensures
            r == &self.devices.hdc,
    {
        &self.devices.hdc
    }

    pub fn floppy_manager(&self) -> (r: &FloppyManager)
        ensures
            r == &self.floppy_manager,
    {
        &self.floppy_manager
    }

    /// The monotone global cycle counter.
    pub fn cpu_cycles(&self) -> (r: u64)
        ensures
            r == self.cpu_cycles,
    {
        self.cpu_cycles
    }

    pub fn pit_cycles(&self) -> (r: u64)
        ensures
            r == self.devices.pit.cycles,
    {
        self.devices.pit.get_cycles()
    }

    pub fn pit_state(&self) -> (state: PitStringState)
        ensures
            state.c0_reload@ == crate::text::ascii_view(
                crate::text::spec_dec_str(self.devices.pit.c0.reload as int),
            ),
            state.c0_count@ == crate::text::ascii_view(
                crate::text::spec_dec_str(self.devices.pit.c0.count as int),
            ),
            state.c1_reload@ == crate::text::ascii_view(
                crate::text::spec_dec_str(self.devices.pit.c1.reload as int),
            ),
            state.c1_count@ == crate::text::ascii_view(
                crate::text::spec_dec_str(self.devices.pit.c1.count as int),
            ),
            state.c2_reload@ == crate::text::ascii_view(
                crate::text::spec_dec_str(self.devices.pit.c2.reload as int),
            ),
            state.c2_count@ == crate::text::ascii_view(
                crate::text::spec_dec_str(self.devices.pit.c2.count as int),
            ),
            state.control@ == crate::text::ascii_view(
                crate::text::spec_hex2(self.devices.pit.control),
            ),
    {
        self.devices.pit.get_string_repr()
    }

    pub fn pic_state(&self) -> (state: PicStringState)
        ensures
            state.irr@ == crate::text::ascii_view(crate::text::spec_hex2(self.devices.pic.irr)),
            state.imr@ == crate::text::ascii_view(crate::text::spec_hex2(self.devices.pic.imr)),
            state.isr@ == crate::text::ascii_view(crate::text::spec_hex2(self.devices.pic.isr)),
    {
        self.devices.pic.get_string_state()
    }

    pub fn ppi_state(&self) -> (state: PpiStringState)
        ensures
            state.port_a@ == crate::text::ascii_view(
                crate::text::spec_hex2(self.devices.ppi.kb_byte()),
            ),
            state.port_b@ == crate::text::ascii_view(
                crate::text::spec_hex2(self.devices.ppi.port_b()),
            ),
            state.kb_count@ == crate::text::ascii_view(
                crate::text::spec_dec_str(self.devices.ppi.kb_count() as int),
            ),
    {
        self.devices.ppi.get_string_state()
    }

    pub fn dma_state(&self) -> (state: DMAControllerStringState)
        ensures
            state.ch0_addr@ == crate::text::ascii_view(
                crate::text::spec_hex4(self.devices.dma.ch0.addr),
            ),
            state.ch0_wc@ == crate::text::ascii_view(
                crate::text::spec_hex4(self.devices.dma.ch0.wc),
            ),
            state.ch1_addr@ == crate::text::ascii_view(
                crate::text::spec_hex4(self.devices.dma.ch1.addr),
            ),
            state.ch1_wc@ == crate::text::ascii_view(
                crate::text::spec_hex4(self.devices.dma.ch1.wc),
            ),
            state.refresh_count@ == crate::text::ascii_view(
                crate::text::spec_dec_str(self.devices.dma.refresh_count as int),
            ),
    {
        self.devices.dma.get_string_state()
    }

    /// The latched processor fault, once one has happened.
    pub fn get_error_str(&self) -> (r: Option<&str>)
        ensures
            self.error ==> (r matches Some(s) && s@ == self.error_str@),
            !self.error ==> r is None,
    {
        if self.error {
            Some(self.error_str.as_str())
        } else {
            None
        }
    }

    /// Queues a key-press scan code.
    pub fn key_press(&mut self, code: u8)
        ensures
            *final(self) == (Machine { kb_buf: final(self).kb_buf, ..*old(self) }),
            final(self).kb_buf@ == old(self).kb_buf@.push(code),
    {
        self.kb_buf.push_back(code);
    }

    /// Queues a key-release scan code: the press code with the high bit set.
    pub fn key_release(&mut self, code: u8)
        ensures
            *final(self) == (Machine { kb_buf: final(self).kb_buf, ..*old(self) }),
            final(self).kb_buf@ == old(self).kb_buf@.push(code | 0x80),
    {
        self.kb_buf.push_back(code | 0x80);
    }

    /// Resets the machine: processor, memory and ROM images, interval timer
    /// and interrupt controller. The cycle counter keeps counting across
    /// resets, and the remaining devices hold their state.
    pub fn reset(&mut self)
        requires
            old(self).wf(),
        ensures
            final(self).wf(),
            machine_reset_rel(*old(self), *final(self)),
    {
        self.cpu.reset();

        // Clear RAM
        self.bus.reset();

        // Reload BIOS ROM images
        self.rom_manager.copy_into_memory(&mut self.bus);

        // Reset devices
        self.devices.pit.reset();
        self.devices.pic.reset();
        proof {
            assert(final(self).bus.mem() =~= spec_mem_after_images(
                spec_zero_mem(),
                old(self).rom_manager.images@,
            ));
        }
    }
}


/// A slice never costs more than six cycles over its target.
proof fn lemma_full_steps_bound(target: u32)
    ensures
        0 <= spec_full_steps(target),
        (STEP_CYCLES as int) * spec_full_steps(target) <= target + 6,
{
    let c = spec_full_steps(target);
    assert(0 <= c && 7 * c <= target + 6) by (nonlinear_arith)
        requires
            c == (target + 6) / 7,
            target <= u32::MAX,
    ;
}

/// While the loop is still short of the target, one more full step fits
/// under the step total.
proof fn lemma_elapsed_bound(steps: int, target: u32)
    requires
        0 <= steps,
        (STEP_CYCLES as int) * steps < target,
    ensures
        steps + 1 <= spec_full_steps(target),
        (STEP_CYCLES as int) * (steps + 1) <= (STEP_CYCLES as int) * spec_full_steps(target),
{
    let c = spec_full_steps(target);
    assert(7 * c >= target) by (nonlinear_arith)
        requires
            c == (target + 6) / 7,
            target <= u32::MAX,
    ;
    assert(steps + 1 <= c && 7 * (steps + 1) <= 7 * c) by (nonlinear_arith)
        requires
            0 <= steps,
            7 * steps < target,
            7 * c >= target,
    ;
}

/// A slice that ran to its target spent exactly the step total.
proof fn lemma_elapsed_exit(steps: int, target: u32)
    requires
        0 <= steps,
        target <= (STEP_CYCLES as int) * steps,
        (STEP_CYCLES as int) * steps < target + STEP_CYCLES,
    ensures
        steps == spec_full_steps(target),
{
    let c = spec_full_steps(target);
    assert(7 * c >= target && 7 * c <= target + 6) by (nonlinear_arith)
        requires
            c == (target + 6) / 7,
            target <= u32::MAX,
    ;
    assert(steps == c) by (nonlinear_arith)
        requires
            0 <= steps,
            target <= 7 * steps,
            7 * steps < target + 7,
            7 * c >= target,
            7 * c <= target + 6,
    ;
}

impl Machine {
    /// The checkpoint probe: latches the label of a checkpoint sitting at
    /// the next instruction's address.
    fn latch_checkpoint(&mut self)
        ensures
            spec_checkpoint_phase(*old(self), *final(self)),
    {
        let flat_address = self.cpu.get_flat_address();
        // Match checkpoints: the most recent label reached is latched
        let cp = self.rom_manager.get_checkpoint(flat_address);
        match cp {
            Some(label) => {
                let owned = label.clone();
                self.last_checkpoint = Some(owned);
            },
            None => {},
        }
    }

    /// The patch-checkpoint probe: installs the ROM patches when the next
    /// instruction sits on a patch trigger.
    fn apply_patch_checkpoint(&mut self)
        requires
            old(self).bus.wf(),
            rom_manager_wf(old(self).rom_manager),
        ensures
            spec_patch_phase(*old(self), *final(self)),
    {
        let flat_address = self.cpu.get_flat_address();
        if self.rom_manager.is_patch_checkpoint(flat_address) {
            let rm = &self.rom_manager;
            rm.install_patches(&mut self.bus);
        }
    }

    /// One processor step, latching the error state with its report when
    /// the instruction is refused.
    fn execute_instruction(&mut self)
        requires
            old(self).bus.wf(),
            old(self).io_bus.wf(),
            !old(self).cpu.error,
        ensures
            spec_cpu_phase(*old(self), *final(self)),
            final(self).devices.ppi.kb_count() == old(self).devices.ppi.kb_count(),
            final(self).devices.ppi.kb_byte() == old(self).devices.ppi.kb_byte(),
            final(self).devices.pit.cycles == old(self).devices.pit.cycles,
            final(self).devices.fdc.cycles == old(self).devices.fdc.cycles,
            final(self).devices.hdc.cycles == old(self).devices.hdc.cycles,
            final(self).devices.cga.cycles == old(self).devices.cga.cycles,
            final(self).devices.dma.refresh_count == old(self).devices.dma.refresh_count,
    {
        let step_result = self.cpu.step(&mut self.bus, &self.io_bus, &mut self.devices);
        proof {
            lemma_step_preserves_counters(
                old(self).cpu,
                self.cpu,
                old(self).devices,
                self.devices,
                self.io_bus,
                self.bus.mem(),
                step_result,
            );
        }
        match step_result {
            Ok(()) => {},
            Err(err) => {
                self.error = true;
                let mut msg = err.describe();
                msg.append("\n");
                let hist = self.cpu.dump_instruction_history();
                msg.append(hist.as_str());
                self.error_str = msg;
            },
        }
        proof {
            assert(spec_step_post(
                old(self).cpu,
                self.cpu,
                old(self).devices,
                self.devices,
                old(self).io_bus,
                old(self).bus.mem(),
                step_result,
            ));
        }
    }

    /// Hardware-interrupt delivery: with the interrupt flag set, the
    /// highest-priority pending line vectors the processor.
    fn deliver_interrupts(&mut self)
        requires
            old(self).bus.wf(),
        ensures
            spec_interrupt_phase(*old(self), *final(self)),
    {
        if self.cpu.interrupts_enabled() {
            if self.devices.pic.query_interrupt_line() {
                match self.devices.pic.get_interrupt_vector() {
                    Some(irq) => {
                        self.cpu.do_hw_interrupt(&mut self.bus, irq);
                        proof {
                            let line = (irq - PIC_VECTOR_BASE) as u8;
                            assert(old(self).devices.pic.pending(line));
                            assert(spec_interrupt_phase(*old(self), *self));
                        }
                    },
                    None => {
                        proof {
                            assert(spec_interrupt_phase(*old(self), *self));
                        }
                    },
                }
            } else {
                proof {
                    assert(spec_interrupt_phase(*old(self), *self));
                }
            }
        } else {
            proof {
                assert(spec_interrupt_phase(*old(self), *self));
            }
        }
    }

    /// Keyboard injection: unless this slice already moved a scan code,
    /// the front of the queue goes to the interface and raises line one.
    fn deliver_keyboard(&mut self, kb_done: bool) -> (d: bool)
        requires
            old(self).devices.ppi.kb_count() < u64::MAX,
        ensures
            spec_keyboard_phase(*old(self), *final(self), d),
            d == (!kb_done && old(self).kb_buf@.len() > 0),
    {
        let mut delivered = false;
        // Process one keyboard event per slice: the peripheral interface
        // has no buffer, so a faster rate would let scan codes overwrite
        // each other.
        if self.kb_buf.len() > 0 && !kb_done {
            match self.kb_buf.pop_front() {
                Some(kb_byte) => {
                    self.devices.ppi.send_keyboard(kb_byte);
                    self.devices.pic.request_interrupt(1);
                    delivered = true;
                },
                None => {},
            }
        }
        delivered
    }

    /// One tick of every device, in the scheduler's fixed order: the DMA
    /// controller services requests lodged last step before the timer
    /// lodges new ones; the disk controllers follow, so their completions
    /// surface on the next processor step.
    fn tick_devices(&mut self)
        requires
            old(self).devices.pit.cycles + STEP_CYCLES <= u64::MAX,
            old(self).devices.cga.cycles + STEP_CYCLES <= u64::MAX,
            old(self).devices.fdc.cycles + STEP_CYCLES <= u64::MAX,
            old(self).devices.hdc.cycles + STEP_CYCLES <= u64::MAX,
            old(self).devices.dma.refresh_count < u64::MAX,
        ensures
            *final(self) == (Machine {
                devices: spec_devices_tick(old(self).devices),
                ..*old(self)
            }),
    {
        let d = &mut self.devices;
        d.dma.run();
        d.pit.run(&mut d.pic, &mut d.dma, STEP_CYCLES);
        d.cga.run(STEP_CYCLES);
        d.ppi.run(STEP_CYCLES);
        d.fdc.run(&mut d.pic, STEP_CYCLES);
        d.hdc.run(&mut d.pic, STEP_CYCLES);
        proof {
            assert(self.devices == spec_devices_tick(old(self).devices));
        }
    }

    /// One virtual step of the scheduler, its phases in order: the
    /// breakpoint check (reported, not taken, when `ignore_breakpoint`),
    /// the checkpoint probe, the patch-checkpoint probe, one processor
    /// step, hardware-interrupt delivery, one queued scan code unless this
    /// slice already moved one, and a tick of every device. Returns whether
    /// the breakpoint stopped the step before anything moved, and whether a
    /// scan code was delivered.
    #[verifier::rlimit(100)]
    fn step_once(&mut self, breakpoint: u32, ignore_breakpoint: bool, kb_done: bool) -> (r: (
        bool,
        bool,
    ))
        requires
            old(self).wf(),
            old(self).cpu_cycles + STEP_CYCLES <= u64::MAX,
        ensures
            final(self).wf(),
            final(self).machine_type == old(self).machine_type,
            final(self).video_type == old(self).video_type,
            final(self).rom_manager == old(self).rom_manager,
            final(self).floppy_manager == old(self).floppy_manager,
            final(self).io_bus == old(self).io_bus,
            r.0 == (!old(self).cpu.error && breakpoint != 0 && !ignore_breakpoint && spec_flat(
                old(self).cpu.cs,
                old(self).cpu.ip,
            ) == breakpoint),
            r.0 ==> *final(self) == *old(self) && !r.1,
            !r.0 ==> {
                &&& spec_machine_step(*old(self), *final(self), r.1)
                &&& final(self).cpu_cycles == old(self).cpu_cycles + STEP_CYCLES
                &&& r.1 == (!old(self).cpu.error && !kb_done && old(self).kb_buf@.len() > 0)
                &&& (r.1 ==> spec_kb_delivered(*old(self), *final(self)))
                &&& (!r.1 ==> spec_kb_untouched(*old(self), *final(self)))
                &&& (old(self).cpu.error ==> *final(self) == (Machine {
                    cpu_cycles: final(self).cpu_cycles,
                    ..*old(self)
                }))
            },
    {
        let ghost pre_step = *self;
        let ghost mut m1 = *self;
        let ghost mut m2 = *self;
        let ghost mut m3 = *self;
        let ghost mut m4 = *self;
        let ghost mut m5 = *self;
        let mut delivered = false;
        if !self.cpu.is_error() {
            let flat_address = self.cpu.get_flat_address();

            // Check for an immediate breakpoint
            if flat_address == breakpoint && breakpoint != 0 && !ignore_breakpoint {
                return (true, false);
            }
            self.latch_checkpoint();
            proof {
                m1 = *self;
            }
            self.apply_patch_checkpoint();
            proof {
                m2 = *self;
            }
            self.execute_instruction();
            proof {
                m3 = *self;
            }
            self.deliver_interrupts();
            proof {
                m4 = *self;
            }
            delivered = self.deliver_keyboard(kb_done);
            proof {
                m5 = *self;
            }
            self.tick_devices();
        }
        self.cpu_cycles = self.cpu_cycles + STEP_CYCLES as u64;
        proof {
            if pre_step.cpu.error {
                assert(spec_machine_step(pre_step, *self, false));
            } else {
                assert(spec_checkpoint_phase(pre_step, m1));
                assert(spec_patch_phase(m1, m2));
                assert(spec_cpu_phase(m2, m3));
                assert(spec_interrupt_phase(m3, m4));
                assert(spec_keyboard_phase(m4, m5, delivered));
                assert(*self == (Machine {
                    devices: spec_devices_tick(m5.devices),
                    cpu_cycles: (m5.cpu_cycles + STEP_CYCLES) as u64,
                    ..m5
                }));
                assert(spec_machine_step(pre_step, *self, delivered));
            }
        }
        (false, delivered)
    }

    /// Runs whole virtual steps until `target` cycles are spent, returning
    /// early only when the breakpoint is reached: the final machine is the
    /// old one advanced by that many scheduler steps.
    fn run_slice(
        &mut self,
        target: u32,
        exec_control: &mut ExecutionControl,
        breakpoint: u32,
        ignore_breakpoint: bool,
    )
        requires
            old(self).wf(),
            old(self).cpu_cycles + (STEP_CYCLES as int) * spec_full_steps(target) <= u64::MAX,
        ensures
            final(self).wf(),
            final(self).machine_type == old(self).machine_type,
            final(self).video_type == old(self).video_type,
            final(self).rom_manager == old(self).rom_manager,
            final(self).floppy_manager == old(self).floppy_manager,
            final(self).io_bus == old(self).io_bus,
            final(self).cpu_cycles >= old(self).cpu_cycles,
            final(exec_control).step_flag() == old(exec_control).step_flag(),
            final(exec_control).run_flag() == old(exec_control).run_flag(),
            final(exec_control).reset_flag() == old(exec_control).reset_flag(),
            (final(exec_control).spec_state() == old(exec_control).spec_state()
                || final(exec_control).spec_state() == ExecutionState::BreakpointHit),
            exists|k: int|
                {
                    &&& 0 <= k <= spec_full_steps(target)
                    &&& final(self).cpu_cycles == old(self).cpu_cycles + #[trigger] spec_steps_cycles(k)
                    &&& spec_machine_steps(*old(self), *final(self), k)
                    &&& (k < spec_full_steps(target) ==> {
                        &&& !ignore_breakpoint
                        &&& breakpoint != 0
                        &&& !old(self).cpu.error
                        &&& final(exec_control).spec_state() == ExecutionState::BreakpointHit
                        &&& spec_flat(final(self).cpu.cs, final(self).cpu.ip) == breakpoint
                    })
                },
            ignore_breakpoint ==> *final(exec_control) == *old(exec_control),
            target == 0 ==> *final(self) == *old(self) && *final(exec_control) == *old(
                exec_control,
            ),
            spec_immediate_breakpoint(*old(self), target, breakpoint, ignore_breakpoint) ==> {
                &&& *final(self) == *old(self)
                &&& *final(exec_control) == (ExecutionControl {
                    state: ExecutionState::BreakpointHit,
                    ..*old(exec_control)
                })
            },
            old(self).cpu.error ==> {
                &&& *final(self) == (Machine { cpu_cycles: final(self).cpu_cycles, ..*old(self) })
                &&& *final(exec_control) == *old(exec_control)
                &&& final(self).cpu_cycles == old(self).cpu_cycles + (STEP_CYCLES as int)
                    * spec_full_steps(target)
            },
            ({
                let deliver = !old(self).cpu.error && target > 0 && old(self).kb_buf@.len() > 0
                    && !spec_immediate_breakpoint(
                    *old(self),
                    target,
                    breakpoint,
                    ignore_breakpoint,
                );
                &&& (deliver ==> spec_kb_delivered(*old(self), *final(self)))
                &&& (!deliver ==> spec_kb_untouched(*old(self), *final(self)))
            }),
    {
        let mut kb_event_processed = false;
        let mut cycles_elapsed: u64 = 0;
        let ghost mut steps: int = 0;
        while cycles_elapsed < target as u64
            invariant
                self.wf(),
                old(self).wf(),
                old(self).cpu_cycles + (STEP_CYCLES as int) * spec_full_steps(target)
                    <= u64::MAX,
                self.machine_type == old(self).machine_type,
                self.video_type == old(self).video_type,
                self.rom_manager == old(self).rom_manager,
                self.floppy_manager == old(self).floppy_manager,
                self.io_bus == old(self).io_bus,
                *exec_control == *old(exec_control),
                0 <= steps,
                cycles_elapsed == (STEP_CYCLES as int) * steps,
                cycles_elapsed < target + STEP_CYCLES,
                self.cpu_cycles == old(self).cpu_cycles + cycles_elapsed,
                spec_machine_steps(*old(self), *self, steps),
                cycles_elapsed == 0 ==> *self == *old(self),
                cycles_elapsed > 0 ==> !spec_immediate_breakpoint(
                    *old(self),
                    target,
                    breakpoint,
                    ignore_breakpoint,
                ),
                kb_event_processed ==> spec_kb_delivered(*old(self), *self),
                !kb_event_processed ==> spec_kb_untouched(*old(self), *self),
                (cycles_elapsed > 0 && !old(self).cpu.error && old(self).kb_buf@.len() > 0)
                    ==> kb_event_processed,
                old(self).cpu.error ==> *self == (Machine {
                    cpu_cycles: self.cpu_cycles,
                    ..*old(self)
                }),
            decreases target + STEP_CYCLES - cycles_elapsed,
        {
            proof {
                lemma_elapsed_bound(steps, target);
            }
            let (hit, delivered) = self.step_once(breakpoint, ignore_breakpoint, kb_event_processed);
            if hit {
                exec_control.set_state(ExecutionState::BreakpointHit);
                proof {
                    assert(steps < spec_full_steps(target));
                    assert(spec_steps_cycles(steps) == cycles_elapsed);
                    assert(!old(self).cpu.error);
                }
                return ;
            }
            if delivered {
                kb_event_processed = true;
            }
            cycles_elapsed = cycles_elapsed + STEP_CYCLES as u64;
            proof {
                assert(spec_machine_steps(*old(self), *self, steps + 1));
                steps = steps + 1;
            }
        }
        proof {
            lemma_elapsed_exit(steps, target);
            assert(spec_steps_cycles(steps) == cycles_elapsed);
            assert(self.cpu_cycles == old(self).cpu_cycles + spec_steps_cycles(steps));
        }
    }

    /// Advances the machine for one cycle slice. A pending reset request is
    /// consumed first, before any cycles accrue. While paused the call does
    /// nothing unless a single step is pending, which runs one step with
    /// the breakpoint ignored. Otherwise the machine runs whole steps until
    /// the cycle budget is spent or the breakpoint is reached: the final
    /// machine is the old one advanced by that many scheduler steps, each
    /// an ordered pass through the checkpoint and patch probes, one
    /// processor instruction, interrupt delivery, the keyboard move and a
    /// tick of every device.
    pub fn run(&mut self, cycle_target: u32, exec_control: &mut ExecutionControl, breakpoint: u32)
        requires
            old(self).wf(),
            old(self).cpu_cycles + cycle_target + STEP_CYCLES <= u64::MAX,
        ensures
            final(self).wf(),
            final(self).machine_type == old(self).machine_type,
            final(self).video_type == old(self).video_type,
            final(self).rom_manager == old(self).rom_manager,
            final(self).floppy_manager == old(self).floppy_manager,
            final(self).io_bus == old(self).io_bus,
            final(self).cpu_cycles >= old(self).cpu_cycles,
            old(exec_control).reset_flag() ==> {
                &&& machine_reset_rel(*old(self), *final(self))
                &&& final(self).cpu_cycles == old(self).cpu_cycles
                &&& *final(exec_control) == (ExecutionControl {
                    do_reset: false,
                    ..*old(exec_control)
                })
            },
            !old(exec_control).reset_flag() && old(exec_control).spec_state()
                == ExecutionState::Paused && !old(exec_control).step_flag() ==> {
                &&& *final(self) == *old(self)
                &&& *final(exec_control) == *old(exec_control)
            },
            !old(exec_control).reset_flag() && old(exec_control).spec_state()
                == ExecutionState::Paused && old(exec_control).step_flag() ==> {
                &&& final(self).cpu_cycles == old(self).cpu_cycles + STEP_CYCLES
                &&& spec_machine_steps(*old(self), *final(self), 1)
                &&& final(exec_control).spec_state() == ExecutionState::Paused
                &&& !final(exec_control).step_flag()
                &&& final(exec_control).run_flag() == old(exec_control).run_flag()
                &&& final(exec_control).reset_flag() == old(exec_control).reset_flag()
            },
            !old(exec_control).reset_flag() && (old(exec_control).spec_state()
                == ExecutionState::Running || old(exec_control).spec_state()
                == ExecutionState::BreakpointHit) ==> {
                &&& final(exec_control).step_flag() == old(exec_control).step_flag()
                &&& final(exec_control).run_flag() == old(exec_control).run_flag()
                &&& final(exec_control).reset_flag() == old(exec_control).reset_flag()
                &&& (final(exec_control).spec_state() == old(exec_control).spec_state()
                    || final(exec_control).spec_state() == ExecutionState::BreakpointHit)
                &&& (spec_immediate_breakpoint(*old(self), cycle_target, breakpoint, false) ==> {
                    &&& *final(self) == *old(self)
                    &&& final(exec_control).spec_state() == ExecutionState::BreakpointHit
                })
                &&& (cycle_target == 0 ==> *final(self) == *old(self) && *final(exec_control)
                    == *old(exec_control))
                &&& (old(self).cpu.error ==> {
                    &&& *final(self) == (Machine {
                        cpu_cycles: final(self).cpu_cycles,
                        ..*old(self)
                    })
                    &&& *final(exec_control) == *old(exec_control)
                    &&& final(self).cpu_cycles == old(self).cpu_cycles + (STEP_CYCLES as int)
                        * spec_full_steps(cycle_target)
                })
                &&& exists|k: int|
                    {
                        &&& 0 <= k <= spec_full_steps(cycle_target)
                        &&& final(self).cpu_cycles == old(self).cpu_cycles
                            + #[trigger] spec_steps_cycles(k)
                        &&& spec_machine_steps(*old(self), *final(self), k)
                        &&& (k < spec_full_steps(cycle_target) ==> {
                            &&& breakpoint != 0
                            &&& final(exec_control).spec_state() == ExecutionState::BreakpointHit
                            &&& spec_flat(final(self).cpu.cs, final(self).cpu.ip) == breakpoint
                        })
                    }
                &&& ({
                    let deliver = !old(self).cpu.error && cycle_target > 0 && old(
                        self,
                    ).kb_buf@.len() > 0 && !spec_immediate_breakpoint(
                        *old(self),
                        cycle_target,
                        breakpoint,
                        false,
                    );
                    &&& (deliver ==> spec_kb_delivered(*old(self), *final(self)))
                    &&& (!deliver ==> spec_kb_untouched(*old(self), *final(self)))
                })
            },
    {
        // Was a reset requested?
        if exec_control.do_reset {
            self.reset();
            exec_control.do_reset = false;
            return ;
        }
        let mut ignore_breakpoint = false;
        let cycle_target_adj: u32 = match exec_control.state {
            ExecutionState::Paused => {
                if exec_control.do_step {
                    // Reset the step flag, and execute one step
                    exec_control.do_step = false;
                    ignore_breakpoint = true;
                    1
                } else {
                    return ;
                }
            },
            ExecutionState::Running => cycle_target,
            ExecutionState::BreakpointHit => cycle_target,
        };
        proof {
            lemma_full_steps_bound(cycle_target_adj);
            assert(spec_full_steps(1) == 1);
            assert(spec_steps_cycles(1) == 7);
        }
        self.run_slice(cycle_target_adj, exec_control, breakpoint, ignore_breakpoint);
    }
}

/// Wires every device port once: each port of each peripheral gets exactly
/// the binding of the machine's port map.
#[verifier::rlimit(100)]
fn wire_ports(io_bus: &mut IoBusInterface)
    requires
        old(io_bus).wf(),
        forall|port: u16| old(io_bus).binding(port) is None,
    ensures
        final(io_bus).wf(),
        forall|port: u16| final(io_bus).binding(port) == spec_port_map(port),
{
        // Attach IO device handlers

        // Programmable interrupt controller
        let _ = io_bus.register_port_handler(pic::PIC_COMMAND_PORT, IoHandler::new(DeviceKind::Pic));
        let _ = io_bus.register_port_handler(pic::PIC_DATA_PORT, IoHandler::new(DeviceKind::Pic));

        // Programmable peripheral interface; it carries the DIP switches, so
        // its behaviour depends on the machine and video configuration
        let _ = io_bus.register_port_handler(ppi::PPI_PORT_A, IoHandler::new(DeviceKind::Ppi));
        let _ = io_bus.register_port_handler(ppi::PPI_PORT_B, IoHandler::new(DeviceKind::Ppi));
        let _ = io_bus.register_port_handler(ppi::PPI_PORT_C, IoHandler::new(DeviceKind::Ppi));
        let _ = io_bus.register_port_handler(ppi::PPI_COMMAND_PORT, IoHandler::new(DeviceKind::Ppi));

        // Programmable interval timer: three data ports and a control port
        let _ = io_bus.register_port_handler(
            pit::PIT_COMMAND_REGISTER,
            IoHandler::new(DeviceKind::Pit),
        );
        let _ = io_bus.register_port_handler(
            pit::PIT_CHANNEL_0_DATA_PORT,
            IoHandler::new(DeviceKind::Pit),
        );
        let _ = io_bus.register_port_handler(
            pit::PIT_CHANNEL_1_DATA_PORT,
            IoHandler::new(DeviceKind::Pit),
        );
        let _ = io_bus.register_port_handler(
            pit::PIT_CHANNEL_2_DATA_PORT,
            IoHandler::new(DeviceKind::Pit),
        );

        // DMA controller
        let _ = io_bus.register_port_handler(
            dma::DMA_CHANNEL_0_ADDR_PORT,
            IoHandler::new(DeviceKind::Dma),
        );
        let _ = io_bus.register_port_handler(
            dma::DMA_CHANNEL_0_WC_PORT,
            IoHandler::new(DeviceKind::Dma),
        );
        let _ = io_bus.register_port_handler(
            dma::DMA_CHANNEL_1_ADDR_PORT,
            IoHandler::new(DeviceKind::Dma),
        );
        let _ = io_bus.register_port_handler(
            dma::DMA_CHANNEL_1_WC_PORT,
            IoHandler::new(DeviceKind::Dma),
        );
        let _ = io_bus.register_port_handler(
            dma::DMA_CHANNEL_2_ADDR_PORT,
            IoHandler::new(DeviceKind::Dma),
        );
        let _ = io_bus.register_port_handler(
            dma::DMA_CHANNEL_2_WC_PORT,
            IoHandler::new(DeviceKind::Dma),
        );
        let _ = io_bus.register_port_handler(
            dma::DMA_CHANNEL_3_ADDR_PORT,
            IoHandler::new(DeviceKind::Dma),
        );
        let _ = io_bus.register_port_handler(
            dma::DMA_CHANNEL_3_WC_PORT,
            IoHandler::new(DeviceKind::Dma),
        );
        let _ = io_bus.register_port_handler(
            dma::DMA_COMMAND_REGISTER,
            IoHandler::new(DeviceKind::Dma),
        );
        let _ = io_bus.register_port_handler(
            dma::DMA_WRITE_REQ_REGISTER,
            IoHandler::new(DeviceKind::Dma),
        );
        let _ = io_bus.register_port_handler(
            dma::DMA_CHANNEL_MASK_REGISTER,
            IoHandler::new(DeviceKind::Dma),
        );
        let _ = io_bus.register_port_handler(
            dma::DMA_CHANNEL_MODE_REGISTER,
            IoHandler::new(DeviceKind::Dma),
        );
        let _ = io_bus.register_port_handler(
            dma::DMA_CLEAR_FLIPFLOP,
            IoHandler::new(DeviceKind::Dma),
        );
        let _ = io_bus.register_port_handler(dma::DMA_MASTER_CLEAR, IoHandler::new(DeviceKind::Dma));
        let _ = io_bus.register_port_handler(
            dma::DMA_CLEAR_MASK_REGISTER,
            IoHandler::new(DeviceKind::Dma),
        );
        let _ = io_bus.register_port_handler(
            dma::DMA_WRITE_MASK_REGISTER,
            IoHandler::new(DeviceKind::Dma),
        );
        let _ = io_bus.register_port_handler(
            dma::DMA_CHANNEL_0_PAGE_REGISTER,
            IoHandler::new(DeviceKind::Dma),
        );
        let _ = io_bus.register_port_handler(
            dma::DMA_CHANNEL_1_PAGE_REGISTER,
            IoHandler::new(DeviceKind::Dma),
        );
        let _ = io_bus.register_port_handler(
            dma::DMA_CHANNEL_2_PAGE_REGISTER,
            IoHandler::new(DeviceKind::Dma),
        );
        let _ = io_bus.register_port_handler(
            dma::DMA_CHANNEL_3_PAGE_REGISTER,
            IoHandler::new(DeviceKind::Dma),
        );

        // Floppy controller
        let _ = io_bus.register_port_handler(
            fdc::FDC_DIGITAL_OUTPUT_REGISTER,
            IoHandler::new(DeviceKind::Fdc),
        );
        let _ = io_bus.register_port_handler(
            fdc::FDC_STATUS_REGISTER,
            IoHandler::new(DeviceKind::Fdc),
        );
        let _ = io_bus.register_port_handler(fdc::FDC_DATA_REGISTER, IoHandler::new(DeviceKind::Fdc));

        // Hard-disk controller (it answers only once its option ROM is in)
        let _ = io_bus.register_port_handler(hdc::HDC_DATA_REGISTER, IoHandler::new(DeviceKind::Hdc));
        let _ = io_bus.register_port_handler(
            hdc::HDC_STATUS_REGISTER,
            IoHandler::new(DeviceKind::Hdc),
        );
        let _ = io_bus.register_port_handler(
            hdc::HDC_READ_DIP_REGISTER,
            IoHandler::new(DeviceKind::Hdc),
        );
        let _ = io_bus.register_port_handler(
            hdc::HDC_WRITE_MASK_REGISTER,
            IoHandler::new(DeviceKind::Hdc),
        );

        // Colour graphics adapter
        let _ = io_bus.register_port_handler(
            cga::CRTC_REGISTER_SELECT,
            IoHandler::new(DeviceKind::Cga),
        );
        let _ = io_bus.register_port_handler(cga::CRTC_REGISTER, IoHandler::new(DeviceKind::Cga));
        let _ = io_bus.register_port_handler(
            cga::CGA_MODE_CONTROL_REGISTER,
            IoHandler::new(DeviceKind::Cga),
        );
        let _ = io_bus.register_port_handler(
            cga::CGA_COLOR_CONTROL_REGISTER,
            IoHandler::new(DeviceKind::Cga),
        );
        let _ = io_bus.register_port_handler(
            cga::CGA_STATUS_REGISTER,
            IoHandler::new(DeviceKind::Cga),
        );
        let _ = io_bus.register_port_handler(
            cga::CGA_LIGHTPEN_REGISTER,
            IoHandler::new(DeviceKind::Cga),
        );
    proof {
        assert forall|port: u16| io_bus.binding(port) == spec_port_map(port) by {}
    }
}

} // verus!
