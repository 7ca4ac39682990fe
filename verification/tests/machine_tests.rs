use pc_core::hdc::DRIVE_TYPE2_DIP;
use pc_core::io::{Devices, IoBusInterface, IoError, IoHandler, DeviceKind};
use pc_core::machine::{
    ExecutionControl, ExecutionState, FloppyManager, Machine, MachineType, VideoType,
};
use pc_core::pic::PIC_COMMAND_PORT;
use pc_core::rom_manager::RomManager;

fn fresh_machine(entry_seg: u16, entry_off: u16, image: Vec<u8>) -> Machine {
    let mut rom = RomManager::new(entry_seg, entry_off);
    if !image.is_empty() {
        let flat = (entry_seg as usize) * 16 + entry_off as usize;
        assert!(rom.add_image(image, flat, 4));
    }
    Machine::new(
        MachineType::IBM_XT_5160,
        VideoType::CGA,
        rom,
        FloppyManager::new(),
    )
}

fn running() -> ExecutionControl {
    let mut ctl = ExecutionControl::new();
    ctl.do_run();
    ctl
}

#[test]
fn port_dispatch() {
    let mut io_bus = IoBusInterface::new();
    let mut devices = Devices::new(MachineType::IBM_XT_5160, VideoType::CGA, DRIVE_TYPE2_DIP);
    assert_eq!(
        io_bus.register_port_handler(PIC_COMMAND_PORT, IoHandler::new(DeviceKind::Pic)),
        Ok(())
    );
    // the write reaches the controller: an end-of-interrupt retires the
    // highest-priority in-service line
    devices.pic.isr = 0b0000_0110;
    io_bus.write(&mut devices, PIC_COMMAND_PORT, 0x20);
    assert_eq!(devices.pic.isr, 0b0000_0100);
    // an unbound port reads as the pull-up pattern
    assert_eq!(io_bus.read(&mut devices, 0xABCD), 0xFF);
    // a port may be bound only once
    assert_eq!(
        io_bus.register_port_handler(PIC_COMMAND_PORT, IoHandler::new(DeviceKind::Ppi)),
        Err(IoError::PortInUse)
    );
}

#[test]
fn keyboard_rate_limit() {
    let mut m = fresh_machine(0, 0x100, vec![0x90; 32]);
    let mut ctl = running();
    m.key_press(0x1C);
    m.key_press(0x1D);
    m.key_press(0x1E);
    m.run(21, &mut ctl, 0);
    // exactly one scan code was latched, and exactly IRQ1 is pending
    assert_eq!(m.ppi_state().kb_count, "1");
    assert_eq!(m.ppi_state().port_a, "1c");
    assert_eq!(m.pic_state().irr, "02");
}

#[test]
fn breakpoint_stops_before_any_cycle() {
    let mut m = fresh_machine(0, 0x100, vec![0x90; 32]);
    let mut ctl = running();
    m.run(1000, &mut ctl, 0x100);
    assert!(matches!(ctl.get_state(), ExecutionState::BreakpointHit));
    assert_eq!(m.cpu_cycles(), 0);
    // the processor has not moved
    assert_eq!(m.cpu().cs, 0);
    assert_eq!(m.cpu().ip, 0x100);
}

#[test]
fn cycle_counter_rounds_up_to_whole_steps() {
    let mut m = fresh_machine(0, 0x100, vec![0x90; 64]);
    let mut ctl = running();
    m.run(21, &mut ctl, 0);
    assert_eq!(m.cpu_cycles(), 21);
    m.run(20, &mut ctl, 0);
    assert_eq!(m.cpu_cycles(), 42);
    m.run(1, &mut ctl, 0);
    assert_eq!(m.cpu_cycles(), 49);
    m.run(0, &mut ctl, 0);
    assert_eq!(m.cpu_cycles(), 49);
}

#[test]
fn paused_without_step_is_a_no_op() {
    let mut m = fresh_machine(0, 0x100, vec![0x90; 32]);
    let mut ctl = ExecutionControl::new();
    m.run(1000, &mut ctl, 0);
    assert_eq!(m.cpu_cycles(), 0);
    assert_eq!(m.cpu().ip, 0x100);
    assert!(matches!(ctl.get_state(), ExecutionState::Paused));
}

#[test]
fn single_step_ignores_the_breakpoint() {
    let mut m = fresh_machine(0, 0x100, vec![0x90; 32]);
    let mut ctl = ExecutionControl::new();
    ctl.do_step();
    // the step runs even though the breakpoint sits on the next instruction
    m.run(1000, &mut ctl, 0x100);
    assert_eq!(m.cpu_cycles(), 7);
    assert_eq!(m.cpu().ip, 0x101);
    assert!(matches!(ctl.get_state(), ExecutionState::Paused));
    // the next run may observe the breakpoint normally
    ctl.do_run();
    m.run(1000, &mut ctl, 0x101);
    assert!(matches!(ctl.get_state(), ExecutionState::BreakpointHit));
    assert_eq!(m.cpu_cycles(), 7);
}

#[test]
fn reset_request_runs_before_any_cycles() {
    let mut m = fresh_machine(0, 0x100, vec![0x90; 32]);
    let mut ctl = running();
    m.run(21, &mut ctl, 0);
    assert_eq!(m.cpu_cycles(), 21);
    assert_eq!(m.cpu().ip, 0x103);
    ctl.do_reset();
    m.run(1000, &mut ctl, 0);
    // the reset consumed the call: no cycles accrued, the processor is back
    // at the entry point, and the timer restarted
    assert_eq!(m.cpu_cycles(), 21);
    assert_eq!(m.cpu().ip, 0x100);
    assert_eq!(m.pit_cycles(), 0);
    // the ROM image was stamped back in
    assert_eq!(m.bus().read_u8(0x100).unwrap().0, 0x90);
}

#[test]
fn unhandled_opcode_latches_an_error() {
    // an all-zero image: the first fetch finds an opcode the model refuses
    let mut m = fresh_machine(0, 0x100, vec![]);
    let mut ctl = running();
    assert!(m.get_error_str().is_none());
    m.run(7, &mut ctl, 0);
    let err = m.get_error_str().expect("the fault should be latched");
    assert!(err.starts_with("unhandled opcode 00"));
    // the history dump names the faulting fetch
    assert!(err.contains("00100 00"));
    // cycles keep accruing while the processor is stopped
    m.run(14, &mut ctl, 0);
    assert_eq!(m.cpu_cycles(), 21);
}

#[test]
fn interrupt_flag_instructions() {
    // enable interrupts, then halt on the unhandled opcode
    let mut m = fresh_machine(0, 0x100, vec![0xFB, 0x90, 0xFA, 0x90]);
    let mut ctl = running();
    assert!(!m.cpu().interrupts);
    m.run(7, &mut ctl, 0);
    assert!(m.cpu().interrupts);
    m.run(14, &mut ctl, 0);
    assert!(!m.cpu().interrupts);
}

#[test]
fn far_jump_sets_the_code_pointer() {
    // jump to 1234:5678 and continue there
    let mut m = fresh_machine(0, 0x100, vec![0xEA, 0x78, 0x56, 0x34, 0x12]);
    let mut ctl = running();
    m.run(7, &mut ctl, 0);
    assert_eq!(m.cpu().cs, 0x1234);
    assert_eq!(m.cpu().ip, 0x5678);
}

#[test]
fn out_reaches_the_interval_timer() {
    // load the timer's channel zero reload low byte through the port bus
    let mut m = fresh_machine(0, 0x100, vec![0xE6, 0x40, 0x90, 0x90]);
    m.cpu.al = 0x05;
    let mut ctl = running();
    m.run(7, &mut ctl, 0);
    assert_eq!(m.devices.pit.c0.reload, 0x05);
    assert_eq!(m.pit_state().c0_reload, "5");
}

#[test]
fn in_reads_the_dip_switches() {
    // port input latches the peripheral interface's switch image
    let mut m = fresh_machine(0, 0x100, vec![0xE4, 0x62, 0x90, 0x90]);
    let mut ctl = running();
    m.run(7, &mut ctl, 0);
    assert_eq!(m.cpu.al, 0x61);
}

#[test]
fn checkpoint_label_is_latched() {
    let mut rom = RomManager::new(0, 0x100);
    assert!(rom.add_image(vec![0x90; 16], 0x100, 4));
    rom.add_checkpoint(0x100, String::from("POST begin"));
    let mut m = Machine::new(
        MachineType::IBM_PC_5150,
        VideoType::CGA,
        rom,
        FloppyManager::new(),
    );
    assert!(m.last_checkpoint().is_none());
    let mut ctl = running();
    m.run(7, &mut ctl, 0);
    assert_eq!(m.last_checkpoint().as_deref(), Some("POST begin"));
}

#[test]
fn patch_checkpoint_rewrites_rom() {
    let mut rom = RomManager::new(0, 0x100);
    assert!(rom.add_image(vec![0x90; 16], 0x100, 4));
    // reaching the entry installs a patch over the read-only image
    assert!(rom.add_patch(0x100, 0x108, vec![0x77]));
    let mut m = Machine::new(
        MachineType::IBM_XT_5160,
        VideoType::CGA,
        rom,
        FloppyManager::new(),
    );
    assert_eq!(m.bus().read_u8(0x108).unwrap().0, 0x90);
    let mut ctl = running();
    m.run(7, &mut ctl, 0);
    assert_eq!(m.bus().read_u8(0x108).unwrap().0, 0x77);
}

#[test]
fn run_control_state_machine() {
    let mut ctl = ExecutionControl::new();
    assert!(matches!(ctl.get_state(), ExecutionState::Paused));
    ctl.do_run();
    assert!(matches!(ctl.get_state(), ExecutionState::Running));
    ctl.set_state(ExecutionState::BreakpointHit);
    ctl.do_run();
    assert!(matches!(ctl.get_state(), ExecutionState::Running));
}

#[test]
fn device_snapshots_render_registers() {
    let mut m = fresh_machine(0, 0x100, vec![0x90; 8]);
    assert_eq!(m.pit_state().c0_reload, "0");
    assert_eq!(m.pit_state().c0_count, "65536");
    assert_eq!(m.pic_state().imr, "00");
    assert_eq!(m.dma_state().refresh_count, "0");
    m.devices.dma.ch0.addr = 0xBEEF;
    assert_eq!(m.dma_state().ch0_addr, "beef");
}

#[test]
fn accessors_reach_the_devices() {
    let mut m = fresh_machine(0, 0x100, vec![0x90; 8]);
    assert_eq!(m.cga().mode_byte, 0x09);
    assert_eq!(m.hdc().dip, DRIVE_TYPE2_DIP);
    assert!(!m.fdc().pending_interrupt);
    assert_eq!(m.floppy_manager().image_count, 0);
    // the mutable bus handle writes through
    m.mut_bus().write_u8(0x5000, 0x33).unwrap();
    assert_eq!(m.bus().read_u8(0x5000).unwrap().0, 0x33);
    assert_eq!(m.pit_cycles(), 0);
}
