use rustboyadvance_core::arm7tdmi::psr::MODE_UNDEFINED;
use rustboyadvance_core::arm7tdmi::Core;
use rustboyadvance_core::arm7tdmi::CpuError;
use rustboyadvance_core::arm7tdmi::StepKind;
use rustboyadvance_core::bus::Bus;
use rustboyadvance_core::cartridge::Cartridge;
use rustboyadvance_core::gba::GBAError;
use rustboyadvance_core::gba::GameBoyAdvance;
use rustboyadvance_core::gpu::timing::GpuState;
use rustboyadvance_core::interrupt::Interrupt;
use rustboyadvance_core::interrupt::InterruptController;
use rustboyadvance_core::interrupt::IRQ_MASK;
use rustboyadvance_core::iodev::IoDevices;
use rustboyadvance_core::iodev::WaitControl;
use rustboyadvance_core::keypad::KEYINPUT_ALL_RELEASED;
use rustboyadvance_core::sysbus::SysBus;

const IO: u32 = 0x0400_0000;

fn fresh_bus() -> SysBus {
    SysBus::new(IoDevices::new(), Vec::new(), Cartridge::new(Vec::new()))
}

fn console(code: &[u32]) -> GameBoyAdvance {
    let mut rom = Vec::new();
    for w in code {
        rom.extend_from_slice(&w.to_le_bytes());
    }
    let mut cpu = Core::new();
    cpu.skip_bios();
    GameBoyAdvance::new(cpu, Vec::new(), Cartridge::new(rom))
}

#[test]
fn interrupt_sources_own_their_bits() {
    let all = [
        Interrupt::VBlank,
        Interrupt::HBlank,
        Interrupt::VCount,
        Interrupt::Timer0,
        Interrupt::Timer1,
        Interrupt::Timer2,
        Interrupt::Timer3,
        Interrupt::Serial,
        Interrupt::Dma0,
        Interrupt::Dma1,
        Interrupt::Dma2,
        Interrupt::Dma3,
        Interrupt::Keypad,
        Interrupt::GamePak,
    ];
    let mut seen = 0u16;
    for (bit, irq) in all.iter().enumerate() {
        assert_eq!(irq.mask(), 1 << bit);
        seen |= irq.mask();
    }
    assert_eq!(seen, IRQ_MASK);
    assert_eq!(IRQ_MASK, 0x3fff);
}

#[test]
fn requests_raise_the_line_when_enabled() {
    let mut c = InterruptController::new();
    assert!(!c.irq_line());
    assert!(!c.request_irq(Interrupt::VBlank));
    assert_eq!(c.interrupt_flags, 1);
    c.interrupt_enable = 1;
    assert!(!c.irq_line());
    c.interrupt_master_enable = true;
    assert!(c.irq_line());
    c.acknowledge(1);
    assert_eq!(c.interrupt_flags, 0);
    assert!(!c.irq_line());
    assert!(!c.request_irq(Interrupt::Keypad));
    assert_eq!(c.interrupt_flags, 0x1000);
    assert!(c.request_irq(Interrupt::VBlank));
    assert_eq!(c.interrupt_flags, 0x1001);
    c.acknowledge(0x1000);
    assert_eq!(c.interrupt_flags, 0x0001);
    assert!(c.irq_line());
    c.interrupt_master_enable = false;
    assert!(!c.irq_line());
    // several at once; bits of no source are dropped
    let mut c = InterruptController::new();
    c.interrupt_master_enable = true;
    c.interrupt_enable = 4;
    assert!(c.request_irqs(0xc005));
    assert_eq!(c.interrupt_flags, 0x0005);
    assert!(!InterruptController::new().request_irqs(0xffff));
}

#[test]
fn display_registers_through_the_bus() {
    let mut bus = fresh_bus();
    bus.write_16(IO, 0x1234);
    assert_eq!(bus.io.gpu.dispcnt.0, 0x1234);
    assert_eq!(bus.read_16(IO), 0x1234);
    assert_eq!(bus.read_8(IO), 0x34);
    assert_eq!(bus.read_8(IO + 1), 0x12);
    bus.write_16(IO + 4, 0xffff);
    assert_eq!(bus.read_16(IO + 4), 0xff38);
    bus.io.gpu.vcount = 0x9c;
    assert_eq!(bus.read_16(IO + 6), 0x9c);
    bus.write_16(IO + 6, 0);
    assert_eq!(bus.io.gpu.vcount, 0x9c);
    assert_eq!(bus.read_32(IO + 4), 0x009c_ff38);
    for i in 0..4u32 {
        bus.write_16(IO + 8 + 2 * i, 0x1000 + i as u16);
        bus.write_16(IO + 0x10 + 4 * i, 0xfe00 + i as u16);
        bus.write_16(IO + 0x12 + 4 * i, 0xffff);
    }
    for i in 0..4usize {
        assert_eq!(bus.io.gpu.bg[i].bgcnt.0, 0x1000 + i as u16);
        assert_eq!(bus.io.gpu.bg[i].hofs, i as u16);
        assert_eq!(bus.io.gpu.bg[i].vofs, 0x1ff);
        assert_eq!(bus.read_16(IO + 8 + 2 * i as u32), 0x1000 + i as u16);
    }
    bus.write_16(IO + 0x4c, 0x00f1);
    assert_eq!(bus.io.gpu.mosaic.0, 0x00f1);
    bus.write_16(IO + 0x20, 0x0100);
    bus.write_16(IO + 0x3e, 0x0abc);
    assert_eq!(bus.io.gpu.affine[0], 0x0100);
    assert_eq!(bus.io.gpu.affine[15], 0x0abc);
    bus.write_16(IO + 0x40, 1);
    bus.write_16(IO + 0x42, 2);
    bus.write_16(IO + 0x44, 3);
    bus.write_16(IO + 0x46, 4);
    assert_eq!((bus.io.gpu.winh, bus.io.gpu.winv), ([1, 2], [3, 4]));
    bus.write_32(IO + 0x48, 0x0002_0001);
    assert_eq!((bus.io.gpu.winin, bus.io.gpu.winout), (1, 2));
    bus.write_16(IO + 0x50, 5);
    bus.write_16(IO + 0x52, 6);
    bus.write_16(IO + 0x54, 7);
    assert_eq!((bus.io.gpu.bldcnt, bus.io.gpu.bldalpha, bus.io.gpu.bldy), (5, 6, 7));
    assert_eq!(bus.read_16(IO + 0x52), 6);
}

#[test]
fn system_registers_through_the_bus() {
    let mut bus = fresh_bus();
    assert_eq!(bus.read_16(IO + 0x130), KEYINPUT_ALL_RELEASED);
    bus.write_16(IO + 0x130, 0);
    assert_eq!(bus.read_16(IO + 0x130), KEYINPUT_ALL_RELEASED);
    bus.write_16(IO + 0x200, 0xffff);
    assert_eq!(bus.io.intc.interrupt_enable, 0x3fff);
    assert_eq!(bus.read_16(IO + 0x200), 0x3fff);
    bus.write_16(IO + 0x204, 0xffff);
    assert_eq!(bus.io.waitcnt.0, 0x7fff);
    assert_eq!(bus.read_16(IO + 0x204), 0x7fff);
    bus.write_16(IO + 0x208, 0xff01);
    assert!(bus.io.intc.interrupt_master_enable);
    assert_eq!(bus.read_16(IO + 0x208), 1);
    bus.write_16(IO + 0x208, 0xfffe);
    assert!(!bus.io.intc.interrupt_master_enable);
    bus.write_8(IO + 0x300, 1);
    assert!(bus.io.post_boot_flag);
    assert_eq!(bus.read_16(IO + 0x300), 1);
    assert_eq!(bus.read_8(IO + 0x8000), 1);
    bus.write_16(IO + 0x8000, 0);
    assert!(!bus.io.post_boot_flag);
}

#[test]
fn a_write_to_the_request_register_acknowledges() {
    let mut bus = fresh_bus();
    bus.io.intc.interrupt_flags = 0x1fff;
    bus.write_16(IO + 0x202, 0x0005);
    assert_eq!(bus.io.intc.interrupt_flags, 0x1ffa);
    assert_eq!(bus.read_16(IO + 0x202), 0x1ffa);
    bus.write_16(IO + 0x202, 0);
    assert_eq!(bus.io.intc.interrupt_flags, 0x1ffa);
    // a byte acknowledges in its half only
    bus.write_8(IO + 0x203, 0x10);
    assert_eq!(bus.io.intc.interrupt_flags, 0x0ffa);
    bus.write_8(IO + 0x202, 0xff);
    assert_eq!(bus.io.intc.interrupt_flags, 0x0f00);
    // a word writes the enable register and acknowledges
    bus.write_32(IO + 0x200, 0x0100_0003);
    assert_eq!(bus.io.intc.interrupt_enable, 3);
    assert_eq!(bus.io.intc.interrupt_flags, 0x0e00);
    assert_eq!(bus.read_32(IO + 0x200), 0x0e00_0003);
}

#[test]
fn a_byte_write_keeps_the_other_half_of_a_register() {
    let mut bus = fresh_bus();
    bus.write_16(IO, 0x1234);
    bus.write_8(IO, 0xff);
    assert_eq!(bus.read_16(IO), 0x12ff);
    bus.write_8(IO + 1, 0x00);
    assert_eq!(bus.read_16(IO), 0x00ff);
    bus.write_8(IO + 0x201, 0x3f);
    bus.write_8(IO + 0x200, 0x01);
    assert_eq!(bus.io.intc.interrupt_enable, 0x3f01);
    // the status flags of DISPSTAT are not written
    bus.io.gpu.dispstat.vblank_flag = true;
    bus.write_8(IO + 5, 0x50);
    assert_eq!(bus.read_16(IO + 4), 0x5001);
    bus.write_8(IO + 4, 0x28);
    assert_eq!(bus.read_16(IO + 4), 0x5029);
}

#[test]
fn offsets_without_a_register_read_zero_and_take_writes() {
    let mut bus = fresh_bus();
    for ofs in [0x002u32, 0x056, 0x060, 0x100, 0x132, 0x20a, 0x302, 0x410, 0x7fe] {
        bus.write_16(IO + ofs, 0xffff);
        bus.write_8(IO + ofs, 0xff);
        bus.write_32(IO + ofs - ofs % 4, 0xffff_ffff);
    }
    for ofs in [0x002u32, 0x056, 0x060, 0x100, 0x132, 0x20a, 0x302, 0x410, 0x7fe] {
        assert_eq!(bus.read_16(IO + ofs), 0, "offset {ofs:x}");
        assert_eq!(bus.read_8(IO + ofs), 0);
        assert_eq!(bus.read_8(IO + ofs + 1), 0);
    }
}

#[test]
fn wait_control_fields() {
    let w = WaitControl(0b0000_0110_1101_1000);
    assert_eq!(w.ws0_first_access(), 2);
    assert_eq!(w.ws0_second_access(), 1);
    assert_eq!(w.ws1_first_access(), 2);
    assert_eq!(w.ws1_second_access(), 1);
    assert_eq!(w.ws2_first_access(), 2);
    assert_eq!(w.ws2_second_access(), 1);
    let w = WaitControl(0b0000_0001_0010_0100);
    assert_eq!(w.ws0_first_access(), 1);
    assert_eq!(w.ws0_second_access(), 0);
    assert_eq!(w.ws1_first_access(), 1);
    assert_eq!(w.ws1_second_access(), 0);
    assert_eq!(w.ws2_first_access(), 1);
    assert_eq!(w.ws2_second_access(), 0);
}

#[test]
fn a_new_console() {
    let gba = GameBoyAdvance::new(Core::new(), vec![1, 2, 3], Cartridge::new(vec![4, 5]));
    assert_eq!(gba.key_state, KEYINPUT_ALL_RELEASED);
    assert_eq!(gba.last_error, None);
    assert_eq!(gba.cpu.gpr[15], 0);
    assert_eq!(gba.sysbus.read_32(0), 0x0003_0201);
    assert_eq!(gba.sysbus.read_16(0x0800_0000), 0x0504);
    assert_eq!(gba.sysbus.io.gpu.state, GpuState::HDraw);
    assert_eq!(gba.sysbus.io.keyinput, KEYINPUT_ALL_RELEASED);
    assert_eq!(gba.get_frame_buffer().len(), 240 * 160);
    let mut gba = gba;
    let cpu = gba.cpu;
    gba.skip_bios();
    let mut want = cpu;
    want.skip_bios();
    assert_eq!(gba.cpu.gpr, want.gpr);
    assert_eq!(gba.cpu.cpsr, want.cpsr);
    assert_eq!(gba.cpu.gpr_banked_r13, want.gpr_banked_r13);
}

#[test]
fn a_frame_ends_after_the_vertical_blank() {
    let mut gba = console(&[0xeaff_fffe]);
    for n in 1..=3u64 {
        gba.frame();
        assert_eq!(gba.sysbus.io.gpu.state, GpuState::HDraw);
        assert_eq!(gba.sysbus.io.gpu.vcount, 0);
        assert!(gba.sysbus.io.gpu.cycles < 512);
        assert_eq!(gba.sysbus.io.gpu.frames, n);
    }
    // about 280896 cycles a frame
    let spent = gba.cpu.cycles;
    assert!(spent >= 3 * 280_896 && spent < 3 * 280_896 + 512);
}

#[test]
fn a_frame_that_begins_in_the_vertical_blank_only_leaves_it() {
    let mut gba = console(&[0xeaff_fffe]);
    while gba.sysbus.io.gpu.state != GpuState::VBlank {
        gba.step().unwrap();
    }
    assert_eq!(gba.sysbus.io.gpu.frames, 1);
    assert_eq!(gba.sysbus.io.gpu.vcount, 160);
    gba.frame();
    assert_eq!(gba.sysbus.io.gpu.frames, 1);
    assert_eq!(gba.sysbus.io.gpu.state, GpuState::HDraw);
    assert_eq!(gba.sysbus.io.gpu.vcount, 0);
}

#[test]
fn a_frame_takes_the_keys_over_and_draws_the_picture() {
    // mov r0, #0x04000000 ; mov r1, #0x400 ; orr r1, r1, #3 ; strh r1, [r0] ; b .
    let mut gba = console(&[0xe3a0_0301, 0xe3a0_1b01, 0xe381_1003, 0xe1c0_10b0, 0xeaff_fffe]);
    for y in 0..160u32 {
        gba.sysbus.write_16(0x0600_0000 + 2 * (240 * y + 7), 0x7000 + y as u16);
    }
    gba.key_state = 0x3fe;
    gba.frame();
    assert_eq!(gba.sysbus.io.keyinput, 0x3fe);
    assert_eq!(gba.sysbus.read_16(0x0400_0130), 0x3fe);
    assert_eq!(gba.sysbus.io.gpu.dispcnt.0, 0x0403);
    let picture = gba.get_frame_buffer();
    for y in 0..160 {
        // red and blue change places on the way to the frame buffer
        let c = 0x7000 + y as u16;
        assert_eq!(picture[240 * y + 7], ((c & 0x1f) << 10) | (c & 0x3e0) | (c >> 10));
        assert_eq!(picture[240 * y + 8], 0);
    }
    gba.key_state = 0x3ff;
    assert_eq!(gba.sysbus.io.keyinput, 0x3fe);
    gba.update_key_state();
    assert_eq!(gba.sysbus.io.keyinput, 0x3ff);
}

#[test]
fn an_error_of_the_processor_does_not_end_the_frame() {
    let mut gba = console(&[0xe7f0_00f0]);
    gba.frame();
    assert_eq!(
        gba.last_error,
        Some(CpuError::UndefinedInstruction { addr: 0x0800_0000, raw: 0xe7f0_00f0 })
    );
    assert_eq!(gba.cpu.cpsr.mode, MODE_UNDEFINED);
    assert_eq!(gba.sysbus.io.gpu.frames, 1);
    assert_eq!(gba.sysbus.io.gpu.state, GpuState::HDraw);
}

#[test]
fn a_step_runs_processor_and_graphics_unit() {
    let mut gba = console(&[0xe3a0_0001, 0xe7f0_00f0]);
    let insn = gba.step().unwrap();
    assert_eq!(insn.pc, 0x0800_0000);
    assert_eq!(insn.raw, 0xe3a0_0001);
    assert_eq!(insn.kind, StepKind::Arm);
    assert_eq!(gba.cpu.gpr[0], 1);
    assert_eq!(gba.sysbus.io.gpu.cycles, 5);
    assert_eq!(gba.sysbus.io.gpu.cycles, gba.cpu.cycles);
    let err = gba.step().unwrap_err();
    assert_eq!(
        err,
        GBAError::CpuError(CpuError::UndefinedInstruction { addr: 0x0800_0004, raw: 0xe7f0_00f0 })
    );
    // the step that failed took its cycles, and the graphics unit stood still
    assert!(gba.cpu.cycles > 5);
    assert_eq!(gba.sysbus.io.gpu.cycles, 5);
    assert_eq!(gba.cpu.gpr[15], 0x04);
    assert_eq!(gba.last_error, None);
}

#[test]
fn peripherals_hand_requests_to_the_interrupt_controller() {
    let mut gba = console(&[]);
    gba.sysbus.io.gpu.dispstat.hblank_irq_enable = true;
    gba.emulate_peripherals(959);
    assert_eq!(gba.sysbus.io.intc.interrupt_flags, 0);
    gba.emulate_peripherals(1);
    assert_eq!(gba.sysbus.io.intc.interrupt_flags, 2);
    assert_eq!(gba.sysbus.io.gpu.state, GpuState::HBlank);
    gba.sysbus.io.gpu.dispstat.vblank_irq_enable = true;
    gba.emulate_peripherals(160 * 1232);
    assert_eq!(gba.sysbus.io.intc.interrupt_flags, 3);
    assert_eq!(gba.sysbus.io.gpu.state, GpuState::VBlank);
    gba.emulate_peripherals(0);
    assert_eq!(gba.sysbus.io.gpu.cycles, 960);
}
