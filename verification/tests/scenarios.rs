use rustboyadvance_core::arm7tdmi::psr::MODE_IRQ;
use rustboyadvance_core::arm7tdmi::psr::MODE_SYSTEM;
use rustboyadvance_core::arm7tdmi::Core;
use rustboyadvance_core::bus::Bus;
use rustboyadvance_core::cartridge::Cartridge;
use rustboyadvance_core::gba::GameBoyAdvance;
use rustboyadvance_core::gpu::timing::GpuState;
use rustboyadvance_core::iodev::IoDevices;
use rustboyadvance_core::sysbus::MemoryAccess;
use rustboyadvance_core::sysbus::MemoryAccessType;
use rustboyadvance_core::sysbus::MemoryAccessWidth;
use rustboyadvance_core::sysbus::Region;
use rustboyadvance_core::sysbus::SysBus;

fn words(code: &[u32]) -> Vec<u8> {
    let mut out = Vec::new();
    for w in code {
        out.extend_from_slice(&w.to_le_bytes());
    }
    out
}

fn console_with_rom(code: &[u32]) -> GameBoyAdvance {
    let mut cpu = Core::new();
    cpu.skip_bios();
    GameBoyAdvance::new(cpu, Vec::new(), Cartridge::new(words(code)))
}

#[test]
fn bios_boot_branches_to_the_reset_vector() {
    let bios = words(&[0xea00_0000]);
    let mut gba = GameBoyAdvance::new(Core::new(), bios, Cartridge::new(Vec::new()));
    let cycles = gba.emulate_cpu();
    assert_eq!(gba.cpu.gpr[15], 0x08);
    assert!(gba.cpu.cycles > 0);
    assert_eq!(gba.cpu.cycles, cycles);
}

#[test]
fn skip_bios_seeds_the_processor() {
    let mut cpu = Core::new();
    cpu.skip_bios();
    assert_eq!(cpu.gpr[15], 0x0800_0000);
    assert_eq!(cpu.cpsr.mode, MODE_SYSTEM);
    assert_eq!(cpu.gpr[13], 0x0300_7f00);
    assert_eq!(cpu.gpr_banked_r13[0], 0x0300_7f00);
    assert_eq!(cpu.gpr_banked_r13[2], 0x0300_7fa0);
    assert_eq!(cpu.gpr_banked_r13[3], 0x0300_7fe0);
    assert!(!cpu.cpsr.thumb);
}

#[test]
fn vblank_irq_is_raised_and_taken_within_one_frame() {
    let mut gba = console_with_rom(&[
        0xe3a0_0301, // mov r0, #0x04000000
        0xe3a0_1008, // mov r1, #8
        0xe1c0_10b4, // strh r1, [r0, #4]   DISPSTAT |= 8
        0xe3a0_1001, // mov r1, #1
        0xe280_2c02, // add r2, r0, #0x200
        0xe1c2_10b0, // strh r1, [r2]       IE = 1
        0xe1c2_10b8, // strh r1, [r2, #8]   IME = 1
        0xeaff_fffe, // b .
    ]);
    gba.frame();
    assert_eq!(gba.sysbus.io.intc.interrupt_flags & 1, 1);
    assert_eq!(gba.sysbus.io.intc.interrupt_enable, 1);
    assert!(gba.sysbus.io.intc.interrupt_master_enable);
    assert_eq!(gba.cpu.cpsr.mode, MODE_IRQ);
    assert!(gba.cpu.cpsr.irq_disabled);
    // the handler was entered from the endless loop at 0x0800001c
    assert_eq!(gba.cpu.gpr[14], 0x0800_001c + 4);
    assert_eq!(gba.cpu.spsr.mode, MODE_SYSTEM);
    assert_eq!(gba.sysbus.io.gpu.frames, 1);
    assert!(gba.sysbus.io.gpu.state != GpuState::VBlank);
    assert_eq!(gba.sysbus.io.gpu.vcount, 0);
}

#[test]
fn ldm_with_write_back_loads_registers_and_jumps() {
    let mut gba = console_with_rom(&[0xe8bd_800f]); // ldmfd r13!, {r0-r3, pc}
    let values = [0u32, 1, 2, 3, 0x0800_0100];
    for (i, v) in values.iter().enumerate() {
        gba.sysbus.write_32(0x0300_7f00 + 4 * i as u32, *v);
    }
    assert_eq!(gba.cpu.gpr[13], 0x0300_7f00);
    gba.emulate_cpu();
    assert_eq!(&gba.cpu.gpr[0..4], &[0, 1, 2, 3]);
    assert_eq!(gba.cpu.gpr[15], 0x0800_0100);
    assert_eq!(gba.cpu.gpr[13], 0x0300_7f14);
}

#[test]
fn thumb_long_branch_with_link() {
    let mut rom = vec![0u8; 0x200];
    // F000: first half, upper offset 0; F810: second half, lower offset 0x10
    rom[0x100..0x104].copy_from_slice(&[0x00, 0xf0, 0x10, 0xf8]);
    let mut cpu = Core::new();
    cpu.skip_bios();
    cpu.cpsr.thumb = true;
    cpu.gpr[15] = 0x0800_0100;
    let mut gba = GameBoyAdvance::new(cpu, Vec::new(), Cartridge::new(rom));
    gba.emulate_cpu();
    assert_eq!(gba.cpu.gpr[15], 0x0800_0102);
    assert_eq!(gba.cpu.gpr[14], 0x0800_0104);
    gba.emulate_cpu();
    assert_eq!(gba.cpu.gpr[14], 0x0800_0105);
    assert_eq!(gba.cpu.gpr[15], 0x0800_0124);
    assert!(gba.cpu.cpsr.thumb);
}

#[test]
fn access_cycle_cost_follows_waitcnt() {
    let mut bus = SysBus::new(IoDevices::new(), Vec::new(), Cartridge::new(Vec::new()));
    bus.write_16(0x0400_0204, (3 << 2) | (1 << 4));
    let nonseq = MemoryAccess(MemoryAccessType::NonSeq, MemoryAccessWidth::MemoryAccess32);
    let seq = MemoryAccess(MemoryAccessType::Sequential, MemoryAccessWidth::MemoryAccess32);
    assert_eq!(bus.get_cycles(0x0800_0000, nonseq), 9);
    assert_eq!(bus.get_cycles(0x0800_0000, seq), 2);
}

#[test]
fn vram_addresses_route_into_vram_and_mirror() {
    let mut bus = SysBus::new(IoDevices::new(), Vec::new(), Cartridge::new(Vec::new()));
    assert_eq!(bus.map(0x0600_ffff), (Region::Vram, 0xffff));
    assert_eq!(bus.map(0x0601_8000).0, Region::Vram);
    assert_eq!(bus.read_8(0x0601_8000), bus.read_8(0x0601_0000));
    bus.write_16(0x0601_0002, 0xbeef);
    assert_eq!(bus.read_16(0x0601_8002), 0xbeef);
    assert_eq!(bus.map(0x0601_8002), (Region::Vram, 0x1_0002));
    bus.write_8(0x0601_ffff, 0x5a);
    assert_eq!(bus.read_8(0x0601_7fff), 0x5a);
}

#[test]
fn io_mirror_is_remapped_to_offset_0x800() {
    let mut bus = SysBus::new(IoDevices::new(), Vec::new(), Cartridge::new(Vec::new()));
    assert_eq!(bus.map(0x0400_8000), (Region::Io, 0x800));
    assert_eq!(bus.map(0x04ff_8000), (Region::Io, 0x800));
    assert_eq!(bus.map_mut(0x0400_8000), (Region::Io, 0x800));
    bus.write_8(0x0400_8000, 1);
    assert!(bus.io.post_boot_flag);
    assert_eq!(bus.read_8(0x0400_0300), 1);
}

#[test]
fn bios_reads_open_bus_from_0x4000() {
    let bus = SysBus::new(IoDevices::new(), vec![0xff; 0x8000], Cartridge::new(Vec::new()));
    assert_eq!(bus.map(0x0000_4000).0, Region::Unmapped);
    assert_eq!(bus.read_8(0x0000_4000), 0);
    assert_eq!(bus.read_16(0x0000_4000), 0);
    assert_eq!(bus.read_32(0x0000_4000), 0);
    assert_eq!(bus.read_32(0x00ff_fffc), 0);
    assert_eq!(bus.map(0x0000_3fff), (Region::Bios, 0x3fff));
    assert_eq!(bus.read_8(0x0000_3fff), 0xff);
    assert_eq!(bus.read_32(0x0000_3ffc), 0xffff_ffff);
}
