use rustboyadvance_core::arm7tdmi::exec::ArmFormat;
use rustboyadvance_core::arm7tdmi::thumb::ThumbKind;
use rustboyadvance_core::arm7tdmi::Core;
use rustboyadvance_core::arm7tdmi::CpuError;
use rustboyadvance_core::arm7tdmi::DecodedInstruction;
use rustboyadvance_core::arm7tdmi::StepKind;
use rustboyadvance_core::cartridge::first_rom_entry;
use rustboyadvance_core::cartridge::is_archive_name;
use rustboyadvance_core::cartridge::name_ends_with;
use rustboyadvance_core::cartridge::Cartridge;
use rustboyadvance_core::debugger::decode_reg;
use rustboyadvance_core::debugger::is_text;
use rustboyadvance_core::debugger::parser::digit;
use rustboyadvance_core::debugger::parser::number;
use rustboyadvance_core::debugger::parser::parse_value;
use rustboyadvance_core::debugger::parser::word_number;
use rustboyadvance_core::debugger::Command;
use rustboyadvance_core::debugger::Debugger;
use rustboyadvance_core::debugger::DebuggerError;
use rustboyadvance_core::debugger::DisassMode;
use rustboyadvance_core::debugger::Report;
use rustboyadvance_core::debugger::Value;
use rustboyadvance_core::disass::ArmInstruction;
use rustboyadvance_core::disass::Disassembler;
use rustboyadvance_core::disass::InstructionDecoder;
use rustboyadvance_core::disass::ThumbInstruction;
use rustboyadvance_core::gba::GameBoyAdvance;
use rustboyadvance_core::util::FpsCounter;

fn debugger(code: &[u32]) -> Debugger {
    let mut rom = Vec::new();
    for w in code {
        rom.extend_from_slice(&w.to_le_bytes());
    }
    let mut cpu = Core::new();
    cpu.skip_bios();
    Debugger::new(GameBoyAdvance::new(cpu, Vec::new(), Cartridge::new(rom)))
}

fn name(s: &str) -> Value {
    Value::Identifier(s.to_string())
}

fn format_error(usage: &str) -> Result<Command, DebuggerError> {
    Err(DebuggerError::InvalidCommandFormat(usage.to_string()))
}

#[test]
fn fps_counter_counts_frames_of_a_second() {
    let mut fps = FpsCounter::new();
    assert_eq!(fps.count_frame(0), None);
    assert_eq!(fps.count_frame(0), None);
    assert_eq!(fps.count_frame(1), Some(3));
    assert_eq!(fps.count_frame(0), None);
    assert_eq!(fps.count_frame(7), Some(2));
    assert_eq!(fps.count_frame(u64::MAX), Some(1));
    let mut fps = FpsCounter::default();
    for _ in 0..59 {
        assert_eq!(fps.count_frame(0), None);
    }
    assert_eq!(fps.count_frame(1), Some(60));
}

#[test]
fn fps_counter_follows_the_clock() {
    let mut fps = FpsCounter::new();
    // well within the first second
    assert_eq!(fps.tick(), None);
    assert_eq!(fps.tick(), None);
    assert_eq!(fps.count_frame(1), Some(3));
}

#[test]
fn disassembler_walks_arm_code() {
    let bytes = [0x01, 0x00, 0xa0, 0xe3, 0xfe, 0xff, 0xff, 0xea, 0x12, 0x34];
    let mut d: Disassembler<ArmInstruction> = Disassembler::new(0x0800_0000, &bytes);
    assert_eq!(d.word_size, 4);
    assert_eq!(d.pos, 0);
    let (addr, insn) = d.next_instruction().unwrap();
    assert_eq!(addr, 0x0800_0000);
    assert_eq!(insn, ArmInstruction { pc: 0x0800_0000, raw: 0xe3a0_0001 });
    assert_eq!(insn.get_raw(), 0xe3a0_0001);
    assert_eq!(insn.format(), ArmFormat::DataProcessing);
    let (addr, insn) = d.next_instruction().unwrap();
    assert_eq!(addr, 0x0800_0004);
    assert_eq!(insn.format(), ArmFormat::BranchLink);
    assert_eq!(d.pos, 8);
    // two bytes are left: no instruction
    assert_eq!(d.next_instruction(), None);
    assert_eq!(d.next_instruction(), None);
    assert_eq!(d.pos, 8);
    assert_eq!(ArmInstruction::word_size(), 4);
    assert_eq!(ThumbInstruction::word_size(), 2);
}

#[test]
fn disassembler_walks_thumb_code_and_formats_lines() {
    let bytes = [0x12, 0x20, 0xfe, 0xe7, 0x99];
    let mut d: Disassembler<ThumbInstruction> = Disassembler::new(0x0300_0000, &bytes);
    assert_eq!(d.word_size, 2);
    assert_eq!(d.next_line(), Some((2, " 3000000:\t00002012".to_string())));
    let (addr, insn) = d.next_instruction().unwrap();
    assert_eq!((addr, insn.raw), (0x0300_0002, 0xe7fe));
    assert_eq!(insn.kind(), ThumbKind::Branch);
    assert_eq!(d.next_line(), None);
    let bytes = [0x78, 0x56, 0x34, 0x12, 0, 0, 0, 0];
    let mut d: Disassembler<ArmInstruction> = Disassembler::new(0xffff_fffc, &bytes);
    assert_eq!(d.next_line(), Some((4, "fffffffc:\t12345678".to_string())));
    // the address wraps round
    assert_eq!(d.next_line(), Some((8, "       0:\t00000000".to_string())));
    assert_eq!(d.next_line(), None);
    let mut d: Disassembler<ArmInstruction> = Disassembler::new(0, &[]);
    assert_eq!(d.next_line(), None);
}

#[test]
fn decoders_read_little_endian() {
    let a = ArmInstruction::decode_from_bytes(&[1, 2, 3, 4, 5], 0x40);
    assert_eq!(a, ArmInstruction { pc: 0x40, raw: 0x0403_0201 });
    let t = ThumbInstruction::decode_from_bytes(&[1, 2, 3], 0x42);
    assert_eq!(t, ThumbInstruction { pc: 0x42, raw: 0x0201 });
    assert_eq!(t.get_raw(), 0x0201);
}

#[test]
fn register_names() {
    for i in 0..13 {
        assert_eq!(decode_reg(&format!("r{i}")), Some(i));
    }
    assert_eq!(decode_reg(&"sp".to_string()), Some(13));
    assert_eq!(decode_reg(&"lr".to_string()), Some(14));
    assert_eq!(decode_reg(&"pc".to_string()), Some(15));
    for other in ["r13", "r16", "R0", "", "r", "sp ", "x0"] {
        assert_eq!(decode_reg(&other.to_string()), None);
    }
    assert!(is_text(&"abc".to_string(), "abc"));
    assert!(!is_text(&"abc".to_string(), "abd"));
    assert!(!is_text(&"abc".to_string(), "ab"));
}

#[test]
fn arguments_of_commands() {
    let mut d = debugger(&[]);
    d.gba.cpu.gpr[3] = 0x1234;
    assert_eq!(d.val_number(&Value::Num(7)), Ok(7));
    assert_eq!(
        d.val_number(&name("r0")),
        Err(DebuggerError::InvalidArgument("expected a number".to_string()))
    );
    assert_eq!(
        d.val_number(&Value::Boolean(true)),
        Err(DebuggerError::InvalidArgument("expected a number".to_string()))
    );
    assert_eq!(d.val_address(&Value::Num(0x0800_0000)), Ok(0x0800_0000));
    assert_eq!(d.val_address(&name("r3")), Ok(0x1234));
    assert_eq!(d.val_address(&name("pc")), Ok(0x0800_0000));
    assert_eq!(d.val_address(&name("sp")), Ok(0x0300_7f00));
    assert_eq!(
        d.val_address(&name("r99")),
        Err(DebuggerError::InvalidArgument("not a register name".to_string()))
    );
    assert_eq!(
        d.val_address(&Value::Boolean(false)),
        Err(DebuggerError::InvalidArgument("addr: expected a number or register".to_string()))
    );
}

#[test]
fn commands_without_arguments() {
    let d = debugger(&[]);
    for (names, command) in [
        (["i", "info"], Command::Info),
        (["c", "continue"], Command::Continue),
        (["q", "quit"], Command::Quit),
        (["r", "reset"], Command::Reset),
        (["bl", "bl"], Command::ListBreakpoints),
        (["palette-view", "palette-view"], Command::PaletteView),
        (["bd", "breakdel"], Command::ClearBreakpoints),
        (["s", "step"], Command::Step(1)),
        (["x", "hexdump"], Command::HexDump(0x0800_0000, 0x100)),
        (["d", "disass"], Command::Disass(DisassMode::ModeArm, 0x0800_0000, 10)),
        (["da", "disass-arm"], Command::Disass(DisassMode::ModeArm, 0x0800_0000, 10)),
        (["dt", "disass-thumb"], Command::Disass(DisassMode::ModeThumb, 0x0800_0000, 10)),
    ] {
        for n in names {
            assert_eq!(d.eval_command(name(n), Vec::new()), Ok(command), "{n}");
        }
    }
}

#[test]
fn commands_with_arguments() {
    let mut d = debugger(&[]);
    d.gba.cpu.gpr[1] = 0x0200_0000;
    assert_eq!(d.eval_command(name("s"), vec![Value::Num(25)]), Ok(Command::Step(25)));
    assert_eq!(d.eval_command(name("step"), vec![Value::Num(0)]), Ok(Command::Step(0)));
    assert_eq!(
        d.eval_command(name("x"), vec![Value::Num(0x40)]),
        Ok(Command::HexDump(0x40, 0x100))
    );
    assert_eq!(
        d.eval_command(name("hexdump"), vec![name("r1"), Value::Num(16)]),
        Ok(Command::HexDump(0x0200_0000, 16))
    );
    assert_eq!(
        d.eval_command(name("d"), vec![Value::Num(0x40)]),
        Ok(Command::Disass(DisassMode::ModeArm, 0x40, 10))
    );
    assert_eq!(
        d.eval_command(name("dt"), vec![name("r1"), Value::Num(3)]),
        Ok(Command::Disass(DisassMode::ModeThumb, 0x0200_0000, 3))
    );
    assert_eq!(
        d.eval_command(name("b"), vec![Value::Num(0x0800_0010)]),
        Ok(Command::AddBreakpoint(0x0800_0010))
    );
    assert_eq!(d.eval_command(name("break"), vec![name("pc")]), Ok(Command::AddBreakpoint(0x0800_0000)));
    assert_eq!(
        d.eval_command(name("bd"), vec![Value::Num(0x10)]),
        Ok(Command::DelBreakpoint(0x10))
    );
    // the listing follows the instruction set that the processor is in
    d.gba.cpu.cpsr.thumb = true;
    assert_eq!(
        d.eval_command(name("disass"), Vec::new()),
        Ok(Command::Disass(DisassMode::ModeThumb, 0x0800_0000, 10))
    );
    assert_eq!(
        d.eval_command(name("da"), Vec::new()),
        Ok(Command::Disass(DisassMode::ModeArm, 0x0800_0000, 10))
    );
}

#[test]
fn listings_and_dumps_go_on_where_they_stopped() {
    let mut d = debugger(&[]);
    d.previous_command = Some(Command::Disass(DisassMode::ModeArm, 0x100, 10));
    assert_eq!(
        d.eval_command(name("d"), Vec::new()),
        Ok(Command::Disass(DisassMode::ModeArm, 0x100 + 40, 10))
    );
    assert_eq!(d.get_disassembler_args(Vec::new()), Ok((0x128, 10)));
    assert_eq!(
        d.eval_command(name("x"), Vec::new()),
        Ok(Command::HexDump(0x0800_0000, 0x100))
    );
    d.previous_command = Some(Command::HexDump(0x200, 0x100));
    assert_eq!(
        d.eval_command(name("x"), Vec::new()),
        Ok(Command::HexDump(0x200 + 0x400, 0x100))
    );
    assert_eq!(
        d.eval_command(name("d"), Vec::new()),
        Ok(Command::Disass(DisassMode::ModeArm, 0x0800_0000, 10))
    );
    // the address wraps round
    d.previous_command = Some(Command::HexDump(0xffff_ff00, 0x100));
    assert_eq!(d.eval_command(name("x"), Vec::new()), Ok(Command::HexDump(0x300, 0x100)));
    assert_eq!(d.get_disassembler_args(vec![Value::Num(4), Value::Num(2)]), Ok((4, 2)));
    assert_eq!(d.get_disassembler_args(vec![Value::Num(4)]), Ok((4, 10)));
    assert_eq!(
        d.get_disassembler_args(vec![Value::Num(4), Value::Num(2), Value::Num(1)]),
        Err(DebuggerError::InvalidCommandFormat("disass [addr] [n]".to_string()))
    );
}

#[test]
fn command_lines_that_are_no_command() {
    let d = debugger(&[]);
    assert_eq!(
        d.eval_command(Value::Num(1), Vec::new()),
        Err(DebuggerError::InvalidCommand("expected a name".to_string()))
    );
    assert_eq!(
        d.eval_command(Value::Boolean(true), vec![Value::Num(1)]),
        Err(DebuggerError::InvalidCommand("expected a name".to_string()))
    );
    assert_eq!(
        d.eval_command(name("frobnicate"), Vec::new()),
        Err(DebuggerError::InvalidCommand("frobnicate".to_string()))
    );
    assert_eq!(
        d.eval_command(name("I"), Vec::new()),
        Err(DebuggerError::InvalidCommand("I".to_string()))
    );
    let two = || vec![Value::Num(1), Value::Num(2)];
    let three = || vec![Value::Num(1), Value::Num(2), Value::Num(3)];
    assert_eq!(d.eval_command(name("s"), two()), format_error("step [count]"));
    assert_eq!(d.eval_command(name("x"), three()), format_error("xxd [addr] [n]"));
    assert_eq!(d.eval_command(name("d"), three()), format_error("disass [addr] [n]"));
    assert_eq!(d.eval_command(name("dt"), three()), format_error("disass [addr] [n]"));
    assert_eq!(d.eval_command(name("b"), Vec::new()), format_error("break <addr>"));
    assert_eq!(d.eval_command(name("b"), two()), format_error("break <addr>"));
    assert_eq!(d.eval_command(name("bd"), two()), format_error("breakdel [addr]"));
    assert_eq!(
        d.eval_command(name("s"), vec![name("r0")]),
        Err(DebuggerError::InvalidArgument("expected a number".to_string()))
    );
    assert_eq!(
        d.eval_command(name("x"), vec![Value::Num(1), Value::Boolean(true)]),
        Err(DebuggerError::InvalidArgument("expected a number".to_string()))
    );
    assert_eq!(
        d.eval_command(name("b"), vec![name("nowhere")]),
        Err(DebuggerError::InvalidArgument("not a register name".to_string()))
    );
    assert_eq!(
        d.eval_command(name("bd"), vec![Value::Boolean(true)]),
        Err(DebuggerError::InvalidArgument("addr: expected a number or register".to_string()))
    );
    // the commands that take no argument do not look at what they get
    assert_eq!(d.eval_command(name("i"), three()), Ok(Command::Info));
}

#[test]
fn breakpoints() {
    let mut d = debugger(&[]);
    assert!(d.running);
    assert_eq!(d.check_breakpoint(), None);
    assert_eq!(d.add_breakpoint(0x0800_0004), Report::BreakpointAdded(0, 0x0800_0004));
    assert_eq!(d.add_breakpoint(0x0800_0000), Report::BreakpointAdded(1, 0x0800_0000));
    assert_eq!(d.add_breakpoint(0x0800_0004), Report::BreakpointExists);
    assert_eq!(d.breakpoints, vec![0x0800_0004, 0x0800_0000]);
    assert_eq!(d.check_breakpoint(), Some(0x0800_0000));
    d.delete_breakpoint(0x0800_0000);
    assert_eq!(d.breakpoints, vec![0x0800_0004]);
    assert_eq!(d.check_breakpoint(), None);
    d.delete_breakpoint(0x1234);
    assert_eq!(d.breakpoints, vec![0x0800_0004]);
    d.breakpoints = vec![1, 2, 1, 3, 1];
    d.delete_breakpoint(1);
    assert_eq!(d.breakpoints, vec![2, 3]);
    d.stop();
    assert!(!d.running);
}

#[test]
fn stepping_stops_at_breakpoints() {
    // mov r0, #1 ; mov r1, #2 ; undefined
    let mut d = debugger(&[0xe3a0_0001, 0xe3a0_1002, 0xe7f0_00f0]);
    d.add_breakpoint(0x0800_0004);
    let first = d.step_once();
    assert_eq!(
        first,
        Report::Executed(
            DecodedInstruction { pc: 0x0800_0000, raw: 0xe3a0_0001, kind: StepKind::Arm },
            0x0800_0004
        )
    );
    assert_eq!(d.step_once(), Report::HitBreakpoint(0x0800_0004));
    assert!(d.breakpoints.is_empty());
    assert_eq!(d.gba.cpu.gpr[1], 0);
    let reports = d.step_many(2);
    assert_eq!(reports.len(), 2);
    assert_eq!(
        reports[1],
        Report::Failed(CpuError::UndefinedInstruction { addr: 0x0800_0008, raw: 0xe7f0_00f0 })
    );
    assert_eq!(d.gba.cpu.gpr[1], 2);
    assert_eq!(d.step_many(0), Vec::new());
    // the graphics unit ran along with the two instructions that ran
    assert_eq!(d.gba.sysbus.io.gpu.cycles, 10);
    assert_eq!(d.gba.cpu.cycles, 17);
}

#[test]
fn commands_run() {
    let mut d = debugger(&[0xe3a0_0001, 0xe3a0_1002, 0xe7f0_00f0]);
    assert_eq!(Command::Info.run(&mut d), vec![Report::ShowCpu]);
    assert_eq!(Command::HexDump(4, 8).run(&mut d), vec![Report::HexDump(4, 8)]);
    assert_eq!(
        Command::Disass(DisassMode::ModeThumb, 4, 8).run(&mut d),
        vec![Report::Disass(DisassMode::ModeThumb, 4, 8)]
    );
    assert_eq!(Command::PaletteView.run(&mut d), vec![Report::PaletteView]);
    assert_eq!(Command::ListBreakpoints.run(&mut d), vec![Report::ListBreakpoints]);
    assert_eq!(Command::AddBreakpoint(0x10).run(&mut d), vec![Report::BreakpointAdded(0, 0x10)]);
    assert_eq!(Command::AddBreakpoint(0x10).run(&mut d), vec![Report::BreakpointExists]);
    assert_eq!(Command::AddBreakpoint(0x20).run(&mut d), vec![Report::BreakpointAdded(1, 0x20)]);
    assert_eq!(Command::DelBreakpoint(0x10).run(&mut d), Vec::new());
    assert_eq!(d.breakpoints, vec![0x20]);
    assert_eq!(Command::ClearBreakpoints.run(&mut d), Vec::new());
    assert!(d.breakpoints.is_empty());
    assert_eq!(d.gba.cpu.gpr[15], 0x0800_0000);

    let reports = Command::Step(2).run(&mut d);
    assert_eq!(reports.len(), 3);
    assert!(matches!(reports[0], Report::Executed(_, 0x0800_0004)));
    assert!(matches!(reports[1], Report::Executed(_, 0x0800_0008)));
    assert_eq!(reports[2], Report::ShowCpu);
    assert_eq!((d.gba.cpu.gpr[0], d.gba.cpu.gpr[1]), (1, 2));

    assert_eq!(Command::Reset.run(&mut d), vec![Report::Reset]);
    assert_eq!(d.gba.cpu.gpr, [0; 16]);
    assert!(d.running);
    assert_eq!(Command::Quit.run(&mut d), vec![Report::Quit]);
    assert!(!d.running);
}

#[test]
fn continue_runs_one_step_at_a_time() {
    let mut d = debugger(&[0xe3a0_0001, 0xe3a0_1002, 0xe7f0_00f0]);
    d.add_breakpoint(0x0800_0004);
    let reports = Command::Continue.run(&mut d);
    assert_eq!(reports.len(), 2);
    assert!(matches!(reports[0], Report::Executed(_, 0x0800_0004)));
    assert_eq!(reports[1], Report::Unfinished);
    assert_eq!(Command::Continue.run(&mut d), vec![Report::HitBreakpoint(0x0800_0004)]);
    let reports = Command::Continue.run(&mut d);
    assert_eq!(reports.len(), 2);
    assert_eq!(
        Command::Continue.run(&mut d),
        vec![Report::Failed(CpuError::UndefinedInstruction { addr: 0x0800_0008, raw: 0xe7f0_00f0 })]
    );
}

#[test]
fn archive_names_are_known_by_their_ending() {
    assert!(is_archive_name("games/pack.zip"));
    assert!(!is_archive_name("games/pack.gba"));
    assert!(!is_archive_name("zip"));
    assert!(is_archive_name(".zip"));
    assert!(name_ends_with("héllo.gba", ".gba"));
    assert!(!name_ends_with("gba", ".gba"));
    assert!(name_ends_with("anything", ""));
}

#[test]
fn the_first_rom_entry_of_an_archive_is_chosen() {
    let names = vec![
        "readme.txt".to_string(),
        "game.gba".to_string(),
        "other.gba".to_string(),
    ];
    assert_eq!(first_rom_entry(&names), Some(1));
    assert_eq!(first_rom_entry(&vec!["a.gb".to_string(), "gba.txt".to_string()]), None);
    assert_eq!(first_rom_entry(&Vec::new()), None);
}

#[test]
fn words_are_numbers_booleans_or_names() {
    assert_eq!(parse_value("true"), Value::Boolean(true));
    assert_eq!(parse_value("false"), Value::Boolean(false));
    assert_eq!(parse_value("0"), Value::Num(0));
    assert_eq!(parse_value("42"), Value::Num(42));
    assert_eq!(parse_value("007"), Value::Num(7));
    assert_eq!(parse_value("4294967295"), Value::Num(u32::MAX));
    assert_eq!(parse_value("0x8000000"), Value::Num(0x0800_0000));
    assert_eq!(parse_value("0xffffFFFF"), Value::Num(u32::MAX));
    assert_eq!(parse_value("0xAbC"), Value::Num(0xabc));
    assert_eq!(parse_value("r0"), Value::Identifier("r0".to_string()));
    assert_eq!(parse_value("True"), Value::Identifier("True".to_string()));
    assert_eq!(parse_value(""), Value::Identifier(String::new()));
}

#[test]
fn words_that_are_no_numbers_are_names() {
    // one more than fits
    assert_eq!(parse_value("4294967296"), Value::Identifier("4294967296".to_string()));
    assert_eq!(parse_value("0x100000000"), Value::Identifier("0x100000000".to_string()));
    // no digits after the prefix, or digits of another base
    assert_eq!(parse_value("0x"), Value::Identifier("0x".to_string()));
    assert_eq!(parse_value("12a"), Value::Identifier("12a".to_string()));
    assert_eq!(parse_value("0xg"), Value::Identifier("0xg".to_string()));
    assert_eq!(parse_value("-1"), Value::Identifier("-1".to_string()));
    assert_eq!(parse_value("+1"), Value::Identifier("+1".to_string()));
    assert_eq!(parse_value("0X10"), Value::Identifier("0X10".to_string()));
}

#[test]
fn digits_have_values() {
    assert_eq!(digit('0'), Some(0));
    assert_eq!(digit('9'), Some(9));
    assert_eq!(digit('a'), Some(10));
    assert_eq!(digit('F'), Some(15));
    assert_eq!(digit('g'), None);
    assert_eq!(digit(' '), None);
    assert_eq!(number("x1f", 1, 16), Some(0x1f));
    assert_eq!(number("x1f", 1, 10), None);
    assert_eq!(number("101", 0, 2), Some(5));
    assert_eq!(number("101", 3, 2), None);
    assert_eq!(word_number("0x10"), Some(16));
    assert_eq!(word_number("10"), Some(10));
}

#[test]
fn an_empty_line_repeats_the_command_before() {
    let mut d = debugger(&[0xe3a0_0001]);
    assert_eq!(d.read_command(Vec::new()), None);
    let line = vec![Value::Identifier("step".to_string()), Value::Num(3)];
    assert_eq!(d.read_command(line), Some(Ok(Command::Step(3))));
    assert_eq!(d.previous_command, Some(Command::Step(3)));
    assert_eq!(d.read_command(Vec::new()), Some(Ok(Command::Step(3))));
    // a line that is no command leaves the command before as it was
    let line = vec![Value::Identifier("nonsense".to_string())];
    assert!(matches!(d.read_command(line), Some(Err(DebuggerError::InvalidCommand(_)))));
    assert_eq!(d.previous_command, Some(Command::Step(3)));
    let line = vec![Value::Identifier("quit".to_string())];
    assert_eq!(d.read_command(line), Some(Ok(Command::Quit)));
    assert_eq!(d.previous_command, Some(Command::Quit));
    assert!(d.running);
}
