use rustboyadvance_core::arm7tdmi::psr::MODE_SUPERVISOR;
use rustboyadvance_core::arm7tdmi::psr::MODE_UNDEFINED;
use rustboyadvance_core::arm7tdmi::Core;
use rustboyadvance_core::arm7tdmi::CpuError;
use rustboyadvance_core::arm7tdmi::StepKind;
use rustboyadvance_core::bus::Bus;
use rustboyadvance_core::cartridge::Cartridge;
use rustboyadvance_core::gba::GameBoyAdvance;

const ROM: u32 = 0x0800_0000;
const IWRAM: u32 = 0x0300_0000;

fn console(code: &[u16]) -> GameBoyAdvance {
    let mut rom = Vec::new();
    for h in code {
        rom.extend_from_slice(&h.to_le_bytes());
    }
    let mut cpu = Core::new();
    cpu.skip_bios();
    cpu.cpsr.thumb = true;
    GameBoyAdvance::new(cpu, Vec::new(), Cartridge::new(rom))
}

fn run_with(code: &[u16], regs: &[(usize, u32)]) -> GameBoyAdvance {
    let mut gba = console(code);
    for (i, v) in regs {
        gba.cpu.gpr[*i] = *v;
    }
    for _ in 0..code.len() {
        gba.emulate_cpu();
    }
    gba
}

fn flags(gba: &GameBoyAdvance) -> (bool, bool, bool, bool) {
    let p = gba.cpu.cpsr;
    (p.n, p.z, p.c, p.v)
}

#[test]
fn thumb_move_shifted_register() {
    // lsl r0, r1, #2 ; lsr r2, r1, #1 ; asr r3, r4, #1
    let gba = run_with(&[0x0088, 0x084a, 0x1063], &[(1, 0x8000_0003), (4, 0x8000_0000)]);
    assert_eq!(gba.cpu.gpr[0], 0x0000_000c);
    assert_eq!(gba.cpu.gpr[2], 0x4000_0001);
    assert_eq!(gba.cpu.gpr[3], 0xc000_0000);
    assert_eq!(flags(&gba), (true, false, false, false));
    assert_eq!(gba.cpu.gpr[15], ROM + 6);
}

#[test]
fn thumb_add_and_subtract() {
    // add r0, r1, r2 ; sub r3, r1, r2 ; add r4, r1, #3 ; sub r5, r1, #3
    let gba = run_with(&[0x1888, 0x1a8b, 0x1ccc, 0x1ecd], &[(1, 10), (2, 4)]);
    assert_eq!(gba.cpu.gpr[0], 14);
    assert_eq!(gba.cpu.gpr[3], 6);
    assert_eq!(gba.cpu.gpr[4], 13);
    assert_eq!(gba.cpu.gpr[5], 7);
    assert_eq!(flags(&gba), (false, false, true, false));
}

#[test]
fn thumb_immediate_operations() {
    // mov r0, #0x12 ; add r0, #1 ; sub r0, #3 ; cmp r0, #0x10
    let mut gba = console(&[0x2012, 0x3001, 0x3803, 0x2810]);
    gba.emulate_cpu();
    assert_eq!(gba.cpu.gpr[0], 0x12);
    gba.emulate_cpu();
    assert_eq!(gba.cpu.gpr[0], 0x13);
    gba.emulate_cpu();
    assert_eq!(gba.cpu.gpr[0], 0x10);
    gba.emulate_cpu();
    assert_eq!(gba.cpu.gpr[0], 0x10);
    assert_eq!(flags(&gba), (false, true, true, false));
    // mov r7, #0 sets Z
    let gba = run_with(&[0x2700], &[(7, 5)]);
    assert_eq!(gba.cpu.gpr[7], 0);
    assert!(gba.cpu.cpsr.z);
}

#[test]
fn thumb_alu_operations() {
    let a = 0xf0f0_1234u32;
    let b = 0x0000_00ffu32;
    let cases: [(u16, u32); 9] = [
        (0x4008, a & b),  // and r0, r1
        (0x4048, a ^ b),  // eor r0, r1
        (0x4308, a | b),  // orr r0, r1
        (0x4388, a & !b), // bic r0, r1
        (0x43c8, !b),     // mvn r0, r1
        (0x4248, 0u32.wrapping_sub(b)), // neg r0, r1
        (0x4348, a.wrapping_mul(b)),    // mul r0, r1
        (0x4148, a.wrapping_add(b)),    // adc r0, r1 (carry clear)
        (0x4188, a.wrapping_sub(b).wrapping_sub(1)), // sbc r0, r1 (carry clear)
    ];
    for (insn, want) in cases {
        let gba = run_with(&[insn], &[(0, a), (1, b)]);
        assert_eq!(gba.cpu.gpr[0], want, "insn {insn:04x}");
        assert_eq!(gba.cpu.gpr[1], b);
    }
    // shifts by register use the low byte
    let gba = run_with(&[0x4088], &[(0, 1), (1, 0x104)]); // lsl r0, r1
    assert_eq!(gba.cpu.gpr[0], 0x10);
    let gba = run_with(&[0x40c8], &[(0, 0x100), (1, 4)]); // lsr r0, r1
    assert_eq!(gba.cpu.gpr[0], 0x10);
    let gba = run_with(&[0x4108], &[(0, 0x8000_0000), (1, 4)]); // asr r0, r1
    assert_eq!(gba.cpu.gpr[0], 0xf800_0000);
    let gba = run_with(&[0x41c8], &[(0, 0x0000_00f1), (1, 4)]); // ror r0, r1
    assert_eq!(gba.cpu.gpr[0], 0x1000_000f);
    // the tests write nothing
    let gba = run_with(&[0x4208], &[(0, 0xf0), (1, 0x0f)]); // tst r0, r1
    assert_eq!(gba.cpu.gpr[0], 0xf0);
    assert!(gba.cpu.cpsr.z);
    let gba = run_with(&[0x4288], &[(0, 5), (1, 5)]); // cmp r0, r1
    assert_eq!(flags(&gba), (false, true, true, false));
    let gba = run_with(&[0x42c8], &[(0, 1), (1, 0xffff_ffff)]); // cmn r0, r1
    assert_eq!(flags(&gba), (false, true, true, false));
}

#[test]
fn thumb_high_register_operations() {
    // add r0, r8 ; mov r9, r0 ; cmp r0, r9 ; mov r1, pc
    let mut gba = console(&[0x4440, 0x4681, 0x4548, 0x4679]);
    gba.cpu.gpr[0] = 5;
    gba.cpu.gpr[8] = 7;
    gba.cpu.cpsr.n = true;
    gba.emulate_cpu();
    assert_eq!(gba.cpu.gpr[0], 12);
    // the flags stay
    assert!(gba.cpu.cpsr.n);
    gba.emulate_cpu();
    assert_eq!(gba.cpu.gpr[9], 12);
    gba.emulate_cpu();
    assert_eq!(flags(&gba), (false, true, true, false));
    gba.emulate_cpu();
    // the fourth instruction lies at +6 and reads the pc as +10
    assert_eq!(gba.cpu.gpr[1], ROM + 10);
}

#[test]
fn thumb_branch_and_exchange() {
    // bx r0 into arm code
    let gba = run_with(&[0x4700], &[(0, ROM + 0x40)]);
    assert!(!gba.cpu.cpsr.thumb);
    assert_eq!(gba.cpu.gpr[15], ROM + 0x40);
    // bx r0 staying in thumb code
    let gba = run_with(&[0x4700], &[(0, ROM + 0x41)]);
    assert!(gba.cpu.cpsr.thumb);
    assert_eq!(gba.cpu.gpr[15], ROM + 0x40);
    // bx lr
    let gba = run_with(&[0x4770], &[(14, ROM + 0x81)]);
    assert_eq!(gba.cpu.gpr[15], ROM + 0x80);
}

#[test]
fn thumb_pc_relative_load() {
    // nop (mov r8, r8) ; ldr r0, [pc, #4] : at +2 the pc reads +6, word-aligned +4, so the word at +8
    let mut gba = console(&[0x46c0, 0x4801, 0, 0, 0x5678, 0x1234]);
    gba.emulate_cpu();
    gba.emulate_cpu();
    assert_eq!(gba.cpu.gpr[0], 0x1234_5678);
}

#[test]
fn thumb_load_and_store_with_register_offset() {
    // str r0, [r1, r2] ; ldr r3, [r1, r2] ; strb r0, [r1, r4] ; ldrb r5, [r1, r4]
    let gba = run_with(
        &[0x5088, 0x588b, 0x5508, 0x5d0d],
        &[(0, 0xa1b2_c3d4), (1, IWRAM), (2, 8), (4, 1)],
    );
    assert_eq!(gba.sysbus.read_32(IWRAM + 8), 0xa1b2_c3d4);
    assert_eq!(gba.cpu.gpr[3], 0xa1b2_c3d4);
    assert_eq!(gba.sysbus.read_8(IWRAM + 1), 0xd4);
    assert_eq!(gba.cpu.gpr[5], 0xd4);
}

#[test]
fn thumb_halfword_and_sign_extended_loads() {
    // strh r0, [r1, r2] ; ldrh r3, [r1, r2] ; ldsb r4, [r1, r2] ; ldsh r5, [r1, r2]
    let gba = run_with(&[0x5288, 0x5a8b, 0x568c, 0x5e8d], &[(0, 0x1234_8081), (1, IWRAM), (2, 4)]);
    assert_eq!(gba.sysbus.read_32(IWRAM + 4), 0x0000_8081);
    assert_eq!(gba.cpu.gpr[3], 0x8081);
    assert_eq!(gba.cpu.gpr[4], 0xffff_ff81);
    assert_eq!(gba.cpu.gpr[5], 0xffff_8081);
}

#[test]
fn thumb_load_and_store_with_immediate_offset() {
    // str r0, [r1, #4] ; ldr r2, [r1, #4] ; strb r0, [r1, #1] ; ldrb r3, [r1, #1] ; strh r0, [r1, #2] ; ldrh r4, [r1, #2]
    let gba = run_with(
        &[0x6048, 0x684a, 0x7048, 0x784b, 0x8048, 0x884c],
        &[(0, 0x0102_0304), (1, IWRAM + 0x10)],
    );
    assert_eq!(gba.sysbus.read_32(IWRAM + 0x14), 0x0102_0304);
    assert_eq!(gba.cpu.gpr[2], 0x0102_0304);
    assert_eq!(gba.cpu.gpr[3], 0x04);
    assert_eq!(gba.cpu.gpr[4], 0x0304);
    assert_eq!(gba.sysbus.read_32(IWRAM + 0x10), 0x0304_0400);
    // the largest offsets: 31 words, 31 bytes, 31 halfwords
    let gba = run_with(&[0x67c8, 0x77c8, 0x87c8], &[(0, 0xffff_ffff), (1, IWRAM)]);
    assert_eq!(gba.sysbus.read_32(IWRAM + 124), 0xffff_ffff);
    assert_eq!(gba.sysbus.read_8(IWRAM + 31), 0xff);
    assert_eq!(gba.sysbus.read_16(IWRAM + 62), 0xffff);
    assert_eq!(gba.sysbus.read_8(IWRAM + 30), 0);
}

#[test]
fn thumb_stack_relative_transfers_and_addresses() {
    // str r0, [sp, #4] ; ldr r1, [sp, #4] ; add r2, sp, #4 ; add r3, pc, #4 ; add sp, #8 ; sub sp, #16
    let mut gba = console(&[0x9001, 0x9901, 0xaa01, 0xa301, 0xb002, 0xb084]);
    gba.cpu.gpr[0] = 0x600d_f00d;
    gba.emulate_cpu();
    assert_eq!(gba.sysbus.read_32(0x0300_7f04), 0x600d_f00d);
    gba.emulate_cpu();
    assert_eq!(gba.cpu.gpr[1], 0x600d_f00d);
    gba.emulate_cpu();
    assert_eq!(gba.cpu.gpr[2], 0x0300_7f04);
    gba.emulate_cpu();
    // at +6 the pc reads +10, word-aligned +8, plus 4
    assert_eq!(gba.cpu.gpr[3], ROM + 12);
    gba.emulate_cpu();
    assert_eq!(gba.cpu.gpr[13], 0x0300_7f08);
    gba.emulate_cpu();
    assert_eq!(gba.cpu.gpr[13], 0x0300_7ef8);
}

#[test]
fn thumb_push_and_pop() {
    // push {r0, r1, lr} ; mov r0, #0 ; mov r1, #0 ; pop {r0, r1, pc}
    let mut gba = console(&[0xb503, 0x2000, 0x2100, 0xbd03]);
    gba.cpu.gpr[0] = 0x11;
    gba.cpu.gpr[1] = 0x22;
    gba.cpu.gpr[14] = ROM + 0x41;
    gba.emulate_cpu();
    assert_eq!(gba.cpu.gpr[13], 0x0300_7f00 - 12);
    assert_eq!(gba.sysbus.read_32(0x0300_7ef4), 0x11);
    assert_eq!(gba.sysbus.read_32(0x0300_7ef8), 0x22);
    assert_eq!(gba.sysbus.read_32(0x0300_7efc), ROM + 0x41);
    gba.emulate_cpu();
    gba.emulate_cpu();
    gba.emulate_cpu();
    assert_eq!(gba.cpu.gpr[0], 0x11);
    assert_eq!(gba.cpu.gpr[1], 0x22);
    assert_eq!(gba.cpu.gpr[13], 0x0300_7f00);
    assert_eq!(gba.cpu.gpr[15], ROM + 0x40);
    assert!(gba.cpu.cpsr.thumb);
}

#[test]
fn thumb_push_and_pop_restore_all_low_registers() {
    // push {r0-r7} ; eight movs ; pop {r0-r7}
    let mut code = vec![0xb4ffu16];
    for r in 0..8u16 {
        code.push(0x2000 | (r << 8) | 0xee);
    }
    code.push(0xbcff);
    let mut gba = console(&code);
    for r in 0..8 {
        gba.cpu.gpr[r] = 0x1000_0000 * r as u32 + 0x55;
    }
    let before = gba.cpu.gpr;
    gba.emulate_cpu();
    let stack = gba.sysbus.internal_work_ram.mem.clone();
    for _ in 0..8 {
        gba.emulate_cpu();
    }
    assert_eq!(&gba.cpu.gpr[0..8], &[0xee; 8]);
    gba.emulate_cpu();
    assert_eq!(&gba.cpu.gpr[0..15], &before[0..15]);
    assert_eq!(gba.sysbus.internal_work_ram.mem, stack);
}

#[test]
fn thumb_multiple_load_and_store() {
    // stmia r0!, {r1, r2} ; ldmia r3!, {r4, r5}
    let gba = run_with(&[0xc006, 0xcb30], &[(0, IWRAM), (1, 0xaa), (2, 0xbb), (3, IWRAM)]);
    assert_eq!(gba.sysbus.read_32(IWRAM), 0xaa);
    assert_eq!(gba.sysbus.read_32(IWRAM + 4), 0xbb);
    assert_eq!(gba.cpu.gpr[0], IWRAM + 8);
    assert_eq!(gba.cpu.gpr[4], 0xaa);
    assert_eq!(gba.cpu.gpr[5], 0xbb);
    assert_eq!(gba.cpu.gpr[3], IWRAM + 8);
}

#[test]
fn thumb_conditional_branches() {
    // beq +4 : taken when Z
    let mut gba = console(&[0xd002]);
    gba.cpu.cpsr.z = true;
    gba.emulate_cpu();
    assert_eq!(gba.cpu.gpr[15], ROM + 4 + 4);
    let mut gba = console(&[0xd002]);
    gba.cpu.cpsr.z = false;
    gba.emulate_cpu();
    assert_eq!(gba.cpu.gpr[15], ROM + 2);
    // bne -2 loops on itself: offset -4 halfwords... offset8 = 0xfe means -4 bytes
    let mut gba = console(&[0xd1fe]);
    gba.emulate_cpu();
    assert_eq!(gba.cpu.gpr[15], ROM);
    // bge with N == V
    let mut gba = console(&[0xda7f]);
    gba.cpu.cpsr.n = true;
    gba.cpu.cpsr.v = true;
    gba.emulate_cpu();
    assert_eq!(gba.cpu.gpr[15], ROM + 4 + 254);
    // the farthest way back
    let mut gba = console(&[0x46c0, 0x46c0, 0xd080]);
    gba.cpu.cpsr.z = true;
    for _ in 0..3 {
        gba.emulate_cpu();
    }
    assert_eq!(gba.cpu.gpr[15], ROM + 4 + 4 - 256);
}

#[test]
fn thumb_unconditional_branch() {
    let gba = run_with(&[0xe002], &[]);
    assert_eq!(gba.cpu.gpr[15], ROM + 8);
    let gba = run_with(&[0xe7fe], &[]);
    assert_eq!(gba.cpu.gpr[15], ROM);
    let gba = run_with(&[0xe3ff], &[]);
    assert_eq!(gba.cpu.gpr[15], ROM + 4 + 2046);
    let gba = run_with(&[0xe400], &[]);
    assert_eq!(gba.cpu.gpr[15], ROM + 4 - 2048);
}

#[test]
fn thumb_long_branch_backwards() {
    // at 0x08000100: bl to 0x08000000 : offset = -0x104 -> high part 0x7ff, low part (0x1000 - 0x104) / 2
    let mut rom = vec![0u8; 0x200];
    rom[0x100..0x104].copy_from_slice(&[0xff, 0xf7, 0x7e, 0xff]);
    let mut cpu = Core::new();
    cpu.skip_bios();
    cpu.cpsr.thumb = true;
    cpu.gpr[15] = ROM + 0x100;
    let mut gba = GameBoyAdvance::new(cpu, Vec::new(), Cartridge::new(rom));
    gba.emulate_cpu();
    assert_eq!(gba.cpu.gpr[14], ROM + 0x104 - 0x1000);
    gba.emulate_cpu();
    assert_eq!(gba.cpu.gpr[15], ROM);
    assert_eq!(gba.cpu.gpr[14], ROM + 0x105);
}

#[test]
fn thumb_software_interrupt() {
    let mut gba = console(&[0xdf05]);
    gba.emulate_cpu();
    assert_eq!(gba.cpu.gpr[15], 0x08);
    assert_eq!(gba.cpu.gpr[14], ROM + 2);
    assert_eq!(gba.cpu.cpsr.mode, MODE_SUPERVISOR);
    assert!(!gba.cpu.cpsr.thumb);
    assert!(gba.cpu.spsr.thumb);
}

#[test]
fn thumb_undefined_instructions() {
    for raw in [0xde00u16, 0xe800, 0xb100, 0xbf00] {
        let mut gba = console(&[raw]);
        let r = gba.cpu.step_one(&mut gba.sysbus);
        assert_eq!(r, Err(CpuError::UndefinedInstruction { addr: ROM, raw: raw as u32 }));
        assert_eq!(gba.cpu.gpr[15], 0x04);
        assert_eq!(gba.cpu.gpr[14], ROM + 2);
        assert_eq!(gba.cpu.cpsr.mode, MODE_UNDEFINED);
    }
    let mut gba = console(&[0x46c0]);
    let insn = gba.cpu.step_one(&mut gba.sysbus).unwrap();
    assert_eq!(insn.kind, StepKind::Thumb);
    assert_eq!(insn.raw, 0x46c0);
    assert_eq!(insn.pc, ROM);
}

#[test]
fn thumb_fetch_takes_halfword_cycles() {
    // a halfword fetch from the cartridge follows the one before: 1 + 2
    let mut gba = console(&[0x46c0]);
    assert_eq!(gba.emulate_cpu(), 3);
    // a taken branch adds two fetches that follow nothing: 2 * (1 + 4)
    let mut gba = console(&[0xe7fe]);
    assert_eq!(gba.emulate_cpu(), 3 + 10);
}
