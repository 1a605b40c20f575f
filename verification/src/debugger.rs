//! The debugger: what a command line means, and what a command does to the
//! console. Reading the line and showing the answer are the shell's part.

pub mod parser;

use crate::arm7tdmi::Core;
use crate::arm7tdmi::CpuError;
use crate::arm7tdmi::DecodedInstruction;
use crate::bus::Addr;
use crate::gba::GBAError;
use crate::gba::GameBoyAdvance;
use vstd::prelude::*;

verus! {

/// A word of a command line.
#[derive(Debug, PartialEq)]
pub enum Value {
    /// A number.
    Num(u32),
    /// `true` or `false`.
    Boolean(bool),
    /// A name.
    Identifier(String),
}

/// Why a command line is no command.
#[derive(Debug, PartialEq)]
pub enum DebuggerError {
    /// The command is not known; the text says which.
    InvalidCommand(String),
    /// An argument is of the wrong kind; the text says what was expected.
    InvalidArgument(String),
    /// The command has the wrong number of arguments; the text shows how it
    /// is used.
    InvalidCommandFormat(String),
}

/// The result of reading a command.
pub type DebuggerResult<T> = Result<T, DebuggerError>;

/// The kinds of `DebuggerError`.
#[derive(Debug, PartialEq, Eq, Clone, Copy, Structural)]
pub enum ErrorKind {
    InvalidCommand,
    InvalidArgument,
    InvalidCommandFormat,
}

/// A `DebuggerError` as its kind and the characters of its text.
pub struct Failure {
    pub kind: ErrorKind,
    pub message: Seq<char>,
}

impl View for DebuggerError {
    type V = Failure;

    open spec fn view(&self) -> Failure {
        match self {
            DebuggerError::InvalidCommand(m) => Failure {
                kind: ErrorKind::InvalidCommand,
                message: m@,
            },
            DebuggerError::InvalidArgument(m) => Failure {
                kind: ErrorKind::InvalidArgument,
                message: m@,
            },
            DebuggerError::InvalidCommandFormat(m) => Failure {
                kind: ErrorKind::InvalidCommandFormat,
                message: m@,
            },
        }
    }
}

/// A result with its error as kind and text.
pub open spec fn outcome<T>(r: DebuggerResult<T>) -> Result<T, Failure> {
    match r {
        Ok(v) => Ok(v),
        Err(e) => Err(e@),
    }
}

/// The instruction set that a listing is read in.
#[derive(Debug, PartialEq, Eq, Clone, Copy, Structural)]
pub enum DisassMode {
    ModeArm,
    ModeThumb,
}

/// A command of the debugger.
#[derive(Debug, PartialEq, Eq, Clone, Copy, Structural)]
pub enum Command {
    /// Show the processor.
    Info,
    /// Run the given number of instructions.
    Step(usize),
    /// Run until a breakpoint is hit or the processor reports an error.
    Continue,
    /// Show the given number of bytes from the address on.
    HexDump(Addr, usize),
    /// List the given number of instructions from the address on.
    Disass(DisassMode, Addr, usize),
    /// Set a breakpoint.
    AddBreakpoint(Addr),
    /// Remove a breakpoint.
    DelBreakpoint(Addr),
    /// Show the palette.
    PaletteView,
    /// Remove all breakpoints.
    ClearBreakpoints,
    /// Show the breakpoints.
    ListBreakpoints,
    /// Reset the processor.
    Reset,
    /// Leave the debugger.
    Quit,
}

/// The number that a register name stands for: `r0` to `r12`, `sp`, `lr`
/// and `pc`.
pub open spec fn spec_decode_reg(name: Seq<char>) -> Option<usize> {
    if name == "r0"@ {
        Some(0)
    } else if name == "r1"@ {
        Some(1)
    } else if name == "r2"@ {
        Some(2)
    } else if name == "r3"@ {
        Some(3)
    } else if name == "r4"@ {
        Some(4)
    } else if name == "r5"@ {
        Some(5)
    } else if name == "r6"@ {
        Some(6)
    } else if name == "r7"@ {
        Some(7)
    } else if name == "r8"@ {
        Some(8)
    } else if name == "r9"@ {
        Some(9)
    } else if name == "r10"@ {
        Some(10)
    } else if name == "r11"@ {
        Some(11)
    } else if name == "r12"@ {
        Some(12)
    } else if name == "sp"@ {
        Some(13)
    } else if name == "lr"@ {
        Some(14)
    } else if name == "pc"@ {
        Some(15)
    } else {
        None
    }
}

/// Whether the string `s` reads `text`.
pub fn is_text(s: &String, text: &str) -> (r: bool)
    ensures
        r == (s@ == text@),
{
    let t: String = String::from_str(text);
    *s == t
}

/// The number that a register name stands for.
pub fn decode_reg(name: &String) -> (r: Option<usize>)
    ensures
        r == spec_decode_reg(name@),
        r matches Some(i) ==> i < 16,
{
    if is_text(name, "r0") {
        Some(0)
    } else if is_text(name, "r1") {
        Some(1)
    } else if is_text(name, "r2") {
        Some(2)
    } else if is_text(name, "r3") {
        Some(3)
    } else if is_text(name, "r4") {
        Some(4)
    } else if is_text(name, "r5") {
        Some(5)
    } else if is_text(name, "r6") {
        Some(6)
    } else if is_text(name, "r7") {
        Some(7)
    } else if is_text(name, "r8") {
        Some(8)
    } else if is_text(name, "r9") {
        Some(9)
    } else if is_text(name, "r10") {
        Some(10)
    } else if is_text(name, "r11") {
        Some(11)
    } else if is_text(name, "r12") {
        Some(12)
    } else if is_text(name, "sp") {
        Some(13)
    } else if is_text(name, "lr") {
        Some(14)
    } else if is_text(name, "pc") {
        Some(15)
    } else {
        None
    }
}

/// The number that an argument gives: only a number does.
pub open spec fn spec_val_number(arg: Value) -> Result<u32, Failure> {
    match arg {
        Value::Num(n) => Ok(n),
        _ => Err(Failure { kind: ErrorKind::InvalidArgument, message: "expected a number"@ }),
    }
}

/// The address that an argument gives: a number is the address, and the name
/// of a register is the value of the register.
pub open spec fn spec_val_address(cpu: Core, arg: Value) -> Result<u32, Failure> {
    match arg {
        Value::Num(n) => Ok(n),
        Value::Identifier(name) => match spec_decode_reg(name@) {
            Some(i) => Ok(cpu.gpr[i as int]),
            None => Err(
                Failure { kind: ErrorKind::InvalidArgument, message: "not a register name"@ },
            ),
        },
        _ => Err(
            Failure {
                kind: ErrorKind::InvalidArgument,
                message: "addr: expected a number or register"@,
            },
        ),
    }
}

/// The address and the count of a listing or a dump, from up to two
/// arguments: both given; the address given and the count `count`; or
/// nothing given, which goes on where the command before stopped, if it was
/// of the same kind, and starts at `start` else. `usage` is the text of the
/// error for more arguments.
pub open spec fn spec_range_args(
    cpu: Core,
    args: Seq<Value>,
    resume: Option<(u32, usize)>,
    start: u32,
    count: usize,
    usage: Seq<char>,
) -> Result<(u32, usize), Failure> {
    if args.len() == 2 {
        match spec_val_address(cpu, args[0]) {
            Err(e) => Err(e),
            Ok(addr) => match spec_val_number(args[1]) {
                Err(e) => Err(e),
                Ok(n) => Ok((addr, n as usize)),
            },
        }
    } else if args.len() == 1 {
        match spec_val_address(cpu, args[0]) {
            Err(e) => Err(e),
            Ok(addr) => Ok((addr, count)),
        }
    } else if args.len() == 0 {
        match resume {
            Some((addr, n)) => Ok(
                (addr.wrapping_add(4u32.wrapping_mul(#[verifier::truncate] (n as u32))), count),
            ),
            None => Ok((start, count)),
        }
    } else {
        Err(Failure { kind: ErrorKind::InvalidCommandFormat, message: usage })
    }
}

/// Where a listing goes on after the command `previous`.
pub open spec fn resume_disass(previous: Option<Command>) -> Option<(u32, usize)> {
    match previous {
        Some(Command::Disass(_, addr, n)) => Some((addr, n)),
        _ => None,
    }
}

/// Where a dump goes on after the command `previous`.
pub open spec fn resume_hexdump(previous: Option<Command>) -> Option<(u32, usize)> {
    match previous {
        Some(Command::HexDump(addr, n)) => Some((addr, n)),
        _ => None,
    }
}

/// The command that a name and its arguments stand for.
///
/// `i` or `info` shows the processor. `s` or `step` runs one instruction or
/// as many as its argument says. `c` or `continue` runs on. `x` or `hexdump`
/// dumps 256 bytes or as many as its second argument says, from its first
/// argument or from register 15 on. `d` or `disass` lists 10 instructions or
/// as many as its second argument says, from its first argument or from the
/// next instruction on, in the instruction set that the processor is in;
/// `da` or `disass-arm` and `dt` or `disass-thumb` list in the set that
/// they name. `b` or `break` sets a breakpoint at its argument, `bd` or
/// `breakdel` removes the one at its argument or all, `bl` lists them.
/// `palette-view` shows the palette, `r` or `reset` resets the processor,
/// `q` or `quit` leaves.
pub open spec fn spec_eval_command(
    cpu: Core,
    previous: Option<Command>,
    command: Value,
    args: Seq<Value>,
) -> Result<Command, Failure> {
    match command {
        Value::Identifier(text) => {
            let name = text@;
            if name == "i"@ || name == "info"@ {
                Ok(Command::Info)
            } else if name == "s"@ || name == "step"@ {
                if args.len() == 0 {
                    Ok(Command::Step(1))
                } else if args.len() == 1 {
                    match spec_val_number(args[0]) {
                        Err(e) => Err(e),
                        Ok(n) => Ok(Command::Step(n as usize)),
                    }
                } else {
                    Err(
                        Failure {
                            kind: ErrorKind::InvalidCommandFormat,
                            message: "step [count]"@,
                        },
                    )
                }
            } else if name == "c"@ || name == "continue"@ {
                Ok(Command::Continue)
            } else if name == "x"@ || name == "hexdump"@ {
                match spec_range_args(
                    cpu,
                    args,
                    resume_hexdump(previous),
                    cpu.gpr[15],
                    0x100,
                    "xxd [addr] [n]"@,
                ) {
                    Err(e) => Err(e),
                    Ok(range) => Ok(Command::HexDump(range.0, range.1)),
                }
            } else if name == "d"@ || name == "disass"@ || name == "da"@ || name == "disass-arm"@
                || name == "dt"@ || name == "disass-thumb"@ {
                let mode = if name == "da"@ || name == "disass-arm"@ {
                    DisassMode::ModeArm
                } else if name == "dt"@ || name == "disass-thumb"@ {
                    DisassMode::ModeThumb
                } else if cpu.cpsr.thumb {
                    DisassMode::ModeThumb
                } else {
                    DisassMode::ModeArm
                };
                match spec_range_args(
                    cpu,
                    args,
                    resume_disass(previous),
                    cpu.gpr[15],
                    10,
                    "disass [addr] [n]"@,
                ) {
                    Err(e) => Err(e),
                    Ok(range) => Ok(Command::Disass(mode, range.0, range.1)),
                }
            } else if name == "b"@ || name == "break"@ {
                if args.len() != 1 {
                    Err(
                        Failure {
                            kind: ErrorKind::InvalidCommandFormat,
                            message: "break <addr>"@,
                        },
                    )
                } else {
                    match spec_val_address(cpu, args[0]) {
                        Err(e) => Err(e),
                        Ok(addr) => Ok(Command::AddBreakpoint(addr)),
                    }
                }
            } else if name == "bd"@ || name == "breakdel"@ {
                if args.len() == 0 {
                    Ok(Command::ClearBreakpoints)
                } else if args.len() == 1 {
                    match spec_val_address(cpu, args[0]) {
                        Err(e) => Err(e),
                        Ok(addr) => Ok(Command::DelBreakpoint(addr)),
                    }
                } else {
                    Err(
                        Failure {
                            kind: ErrorKind::InvalidCommandFormat,
                            message: "breakdel [addr]"@,
                        },
                    )
                }
            } else if name == "palette-view"@ {
                Ok(Command::PaletteView)
            } else if name == "bl"@ {
                Ok(Command::ListBreakpoints)
            } else if name == "q"@ || name == "quit"@ {
                Ok(Command::Quit)
            } else if name == "r"@ || name == "reset"@ {
                Ok(Command::Reset)
            } else {
                Err(Failure { kind: ErrorKind::InvalidCommand, message: name })
            }
        },
        _ => Err(Failure { kind: ErrorKind::InvalidCommand, message: "expected a name"@ }),
    }
}

/// The breakpoints `list` without those at `addr`.
pub open spec fn without(list: Seq<u32>, addr: u32) -> Seq<u32>
    decreases list.len(),
{
    if list.len() == 0 {
        list
    } else if list.last() == addr {
        without(list.drop_last(), addr)
    } else {
        without(list.drop_last(), addr).push(list.last())
    }
}

/// What the commands that run the console work on: the processor, what is
/// behind the bus, and the breakpoints.
pub struct Session {
    pub cpu: Core,
    pub bus: crate::sysbus::SysBusView,
    pub breakpoints: Seq<u32>,
}

/// What one step of the debugger does: at a breakpoint the breakpoint is
/// removed and nothing runs; else the processor runs one instruction and the
/// graphics unit runs for as many cycles as the instruction took, unless the
/// processor reports an error.
#[verifier::opaque]
pub open spec fn spec_step_once(s: Session) -> (Session, Report) {
    if s.breakpoints.contains(s.cpu.gpr[15]) {
        (
            Session { breakpoints: without(s.breakpoints, s.cpu.gpr[15]), ..s },
            Report::HitBreakpoint(s.cpu.gpr[15]),
        )
    } else {
        let stepped = s.cpu.spec_step(s.bus);
        (
            Session {
                cpu: stepped.cpu,
                bus: crate::gba::bus_after_step(stepped),
                breakpoints: s.breakpoints,
            },
            match stepped.error {
                Some(e) => Report::Failed(e),
                None => Report::Executed(stepped.insn, stepped.cpu.gpr[15]),
            },
        )
    }
}

/// What `n` steps of the debugger do, one after the other.
pub open spec fn spec_steps(s: Session, n: nat) -> (Session, Seq<Report>)
    decreases n,
{
    if n == 0 {
        (s, Seq::empty())
    } else {
        let first = spec_step_once(s);
        let rest = spec_steps(first.0, (n - 1) as nat);
        (rest.0, seq![first.1] + rest.1)
    }
}

/// What a command has to tell.
#[derive(Debug, PartialEq, Eq, Clone, Copy, Structural)]
pub enum Report {
    /// The processor is to be shown.
    ShowCpu,
    /// The breakpoint at the address was hit and is removed.
    HitBreakpoint(u32),
    /// The instruction ran; the second number is the address of the next.
    Executed(DecodedInstruction, u32),
    /// The processor reported the error.
    Failed(CpuError),
    /// The command is not done: run it again.
    Unfinished,
    /// The bytes are to be dumped.
    HexDump(Addr, usize),
    /// The instructions are to be listed.
    Disass(DisassMode, Addr, usize),
    /// The debugger is left.
    Quit,
    /// The breakpoint was set; the first number is its place in the list.
    BreakpointAdded(usize, u32),
    /// There is a breakpoint at the address already.
    BreakpointExists,
    /// The breakpoints are to be listed.
    ListBreakpoints,
    /// The palette is to be shown.
    PaletteView,
    /// The processor was reset.
    Reset,
}

/// The debugger with the console that it looks at.
pub struct Debugger {
    /// The console.
    pub gba: GameBoyAdvance,
    /// Whether the debugger goes on taking commands.
    pub running: bool,
    /// The addresses at which the console stops.
    pub breakpoints: Vec<u32>,
    /// The command that ran last.
    pub previous_command: Option<Command>,
}

impl Debugger {
    /// A debugger for the console `gba`, with no breakpoint set.
    pub fn new(gba: GameBoyAdvance) -> (r: Debugger)
        ensures
            r.gba == gba,
            r.running,
            r.breakpoints@.len() == 0,
            r.previous_command.is_none(),
    {
        Debugger { gba, running: true, breakpoints: Vec::new(), previous_command: None }
    }

    /// The number that an argument gives.
    pub fn val_number(&self, arg: &Value) -> (r: DebuggerResult<u32>)
        ensures
            outcome(r) == spec_val_number(*arg),
    {
        match arg {
            Value::Num(n) => Ok(*n),
            _ => Err(DebuggerError::InvalidArgument(String::from_str("expected a number"))),
        }
    }

    /// The address that an argument gives.
    pub fn val_address(&self, arg: &Value) -> (r: DebuggerResult<Addr>)
        ensures
            outcome(r) == spec_val_address(self.gba.cpu, *arg),
    {
        match arg {
            Value::Num(n) => Ok(*n),
            Value::Identifier(name) => match decode_reg(name) {
                Some(i) => Ok(self.gba.cpu.get_reg(i)),
                None => Err(DebuggerError::InvalidArgument(String::from_str("not a register name"))),
            },
            _ => Err(
                DebuggerError::InvalidArgument(
                    String::from_str("addr: expected a number or register"),
                ),
            ),
        }
    }

    /// The address and the count of a listing or a dump.
    fn range_args(
        &self,
        args: &Vec<Value>,
        resume: Option<(u32, usize)>,
        start: u32,
        count: usize,
        usage: &str,
    ) -> (r: DebuggerResult<(Addr, usize)>)
        ensures
            outcome(r) == spec_range_args(self.gba.cpu, args@, resume, start, count, usage@),
    {
        if args.len() == 2 {
            let addr: u32 = match self.val_address(&args[0]) {
                Ok(a) => a,
                Err(e) => {
                    return Err(e);
                },
            };
            let n: u32 = match self.val_number(&args[1]) {
                Ok(n) => n,
                Err(e) => {
                    return Err(e);
                },
            };
            Ok((addr, n as usize))
        } else if args.len() == 1 {
            match self.val_address(&args[0]) {
                Ok(addr) => Ok((addr, count)),
                Err(e) => Err(e),
            }
        } else if args.len() == 0 {
            match resume {
                Some((addr, n)) => Ok(
                    (addr.wrapping_add(4u32.wrapping_mul(#[verifier::truncate] (n as u32))), count),
                ),
                None => Ok((start, count)),
            }
        } else {
            Err(DebuggerError::InvalidCommandFormat(String::from_str(usage)))
        }
    }

    /// The address and the count of a listing.
    pub fn get_disassembler_args(&self, args: Vec<Value>) -> (r: DebuggerResult<(Addr, usize)>)
        ensures
            outcome(r) == spec_range_args(
                self.gba.cpu,
                args@,
                resume_disass(self.previous_command),
                self.gba.cpu.gpr[15],
                10,
                "disass [addr] [n]"@,
            ),
    {
        let resume: Option<(u32, usize)> = match self.previous_command {
            Some(Command::Disass(_, addr, n)) => Some((addr, n)),
            _ => None,
        };
        self.range_args(&args, resume, self.gba.cpu.get_next_pc(), 10, "disass [addr] [n]")
    }

    /// The command that the words of a line stand for, the first being its
    /// name. A line without words stands for the command before it, if
    /// there was one. A command that was read is remembered as the command
    /// before the next line.
    pub fn read_command(&mut self, words: Vec<Value>) -> (r: Option<DebuggerResult<Command>>)
        ensures
            final(self).gba == old(self).gba,
            final(self).running == old(self).running,
            final(self).breakpoints == old(self).breakpoints,
            words.len() == 0 ==> {
                &&& final(self).previous_command == old(self).previous_command
                &&& r == match old(self).previous_command {
                    Some(previous) => Some(Ok::<Command, DebuggerError>(previous)),
                    None => None,
                }
            },
            words.len() > 0 ==> {
                &&& r matches Some(read)
                &&& outcome(read) == spec_eval_command(
                    old(self).gba.cpu,
                    old(self).previous_command,
                    words@[0],
                    words@.subrange(1, words.len() as int),
                )
                &&& final(self).previous_command == match read {
                    Ok(command) => Some(command),
                    Err(_) => old(self).previous_command,
                }
            },
    {
        let mut words: Vec<Value> = words;
        if words.len() == 0 {
            return match self.previous_command {
                Some(previous) => Some(Ok(previous)),
                None => None,
            };
        }
        let ghost all = words@;
        let name: Value = words.remove(0);
        assert(words@ =~= all.subrange(1, all.len() as int));
        let read: DebuggerResult<Command> = self.eval_command(name, words);
        match read {
            Ok(command) => {
                self.previous_command = Some(command);
                Some(Ok(command))
            },
            Err(e) => Some(Err(e)),
        }
    }

    /// The command that a name and its arguments stand for.
    pub fn eval_command(&self, command: Value, args: Vec<Value>) -> (r: DebuggerResult<Command>)
        ensures
            outcome(r) == spec_eval_command(self.gba.cpu, self.previous_command, command, args@),
    {
        let name: String = match command {
            Value::Identifier(name) => name,
            _ => {
                return Err(DebuggerError::InvalidCommand(String::from_str("expected a name")));
            },
        };
        if is_text(&name, "i") || is_text(&name, "info") {
            Ok(Command::Info)
        } else if is_text(&name, "s") || is_text(&name, "step") {
            if args.len() == 0 {
                Ok(Command::Step(1))
            } else if args.len() == 1 {
                match self.val_number(&args[0]) {
                    Ok(n) => Ok(Command::Step(n as usize)),
                    Err(e) => Err(e),
                }
            } else {
                Err(DebuggerError::InvalidCommandFormat(String::from_str("step [count]")))
            }
        } else if is_text(&name, "c") || is_text(&name, "continue") {
            Ok(Command::Continue)
        } else if is_text(&name, "x") || is_text(&name, "hexdump") {
            let resume: Option<(u32, usize)> = match self.previous_command {
                Some(Command::HexDump(addr, n)) => Some((addr, n)),
                _ => None,
            };
            match self.range_args(&args, resume, self.gba.cpu.get_reg(15), 0x100, "xxd [addr] [n]") {
                Ok(range) => Ok(Command::HexDump(range.0, range.1)),
                Err(e) => Err(e),
            }
        } else if is_text(&name, "d") || is_text(&name, "disass") || is_text(&name, "da")
            || is_text(&name, "disass-arm") || is_text(&name, "dt") || is_text(
            &name,
            "disass-thumb",
        ) {
            let mode: DisassMode = if is_text(&name, "da") || is_text(&name, "disass-arm") {
                DisassMode::ModeArm
            } else if is_text(&name, "dt") || is_text(&name, "disass-thumb") {
                DisassMode::ModeThumb
            } else if self.gba.cpu.cpsr.thumb {
                DisassMode::ModeThumb
            } else {
                DisassMode::ModeArm
            };
            match self.get_disassembler_args(args) {
                Ok(range) => Ok(Command::Disass(mode, range.0, range.1)),
                Err(e) => Err(e),
            }
        } else if is_text(&name, "b") || is_text(&name, "break") {
            if args.len() != 1 {
                Err(DebuggerError::InvalidCommandFormat(String::from_str("break <addr>")))
            } else {
                match self.val_address(&args[0]) {
                    Ok(addr) => Ok(Command::AddBreakpoint(addr)),
                    Err(e) => Err(e),
                }
            }
        } else if is_text(&name, "bd") || is_text(&name, "breakdel") {
            if args.len() == 0 {
                Ok(Command::ClearBreakpoints)
            } else if args.len() == 1 {
                match self.val_address(&args[0]) {
                    Ok(addr) => Ok(Command::DelBreakpoint(addr)),
                    Err(e) => Err(e),
                }
            } else {
                Err(DebuggerError::InvalidCommandFormat(String::from_str("breakdel [addr]")))
            }
        } else if is_text(&name, "palette-view") {
            Ok(Command::PaletteView)
        } else if is_text(&name, "bl") {
            Ok(Command::ListBreakpoints)
        } else if is_text(&name, "q") || is_text(&name, "quit") {
            Ok(Command::Quit)
        } else if is_text(&name, "r") || is_text(&name, "reset") {
            Ok(Command::Reset)
        } else {
            Err(DebuggerError::InvalidCommand(name))
        }
    }

    /// The breakpoint at which the console stands, if it stands at one.
    pub fn check_breakpoint(&self) -> (r: Option<u32>)
        ensures
            r == if self.breakpoints@.contains(self.gba.cpu.gpr[15]) {
                Some(self.gba.cpu.gpr[15])
            } else {
                None
            },
    {
        let next_pc: u32 = self.gba.cpu.get_next_pc();
        for i in 0..self.breakpoints.len()
            invariant
                next_pc == self.gba.cpu.gpr[15],
                forall|j: int| 0 <= j < i ==> self.breakpoints@[j] != next_pc,
        {
            if self.breakpoints[i] == next_pc {
                return Some(next_pc);
            }
        }
        None
    }

    /// Removes the breakpoints at `addr`.
    pub fn delete_breakpoint(&mut self, addr: u32)
        ensures
            final(self).breakpoints@ == without(old(self).breakpoints@, addr),
            final(self).gba == old(self).gba,
            final(self).running == old(self).running,
            final(self).previous_command == old(self).previous_command,
    {
        let mut kept: Vec<u32> = Vec::new();
        for i in 0..self.breakpoints.len()
            invariant
                *self == *old(self),
                kept@ == without(self.breakpoints@.subrange(0, i as int), addr),
        {
            let bp: u32 = self.breakpoints[i];
            proof {
                let upto = self.breakpoints@.subrange(0, i + 1);
                assert(upto.drop_last() =~= self.breakpoints@.subrange(0, i as int));
                assert(upto.last() == bp);
            }
            if bp != addr {
                kept.push(bp);
            }
        }
        assert(self.breakpoints@.subrange(0, self.breakpoints@.len() as int) =~= self.breakpoints@);
        self.breakpoints = kept;
    }

    /// Stops the debugger.
    pub fn stop(&mut self)
        ensures
            !final(self).running,
            final(self).gba == old(self).gba,
            final(self).breakpoints == old(self).breakpoints,
            final(self).previous_command == old(self).previous_command,
    {
        self.running = false;
    }

    /// What the commands that run the console work on.
    pub open spec fn session(&self) -> Session {
        Session { cpu: self.gba.cpu, bus: self.gba.sysbus@, breakpoints: self.breakpoints@ }
    }

    /// Runs one instruction, unless the console stands at a breakpoint: then
    /// the breakpoint is removed and nothing runs.
    pub fn step_once(&mut self) -> (r: Report)
        requires
            old(self).gba.wf(),
        ensures
            final(self).gba.wf(),
            final(self).running == old(self).running,
            final(self).previous_command == old(self).previous_command,
            final(self).gba.key_state == old(self).gba.key_state,
            final(self).gba.last_error == old(self).gba.last_error,
            (final(self).session(), r) == spec_step_once(old(self).session()),
    {
        proof {
            reveal(spec_step_once);
        }
        if let Some(bp) = self.check_breakpoint() {
            self.delete_breakpoint(bp);
            Report::HitBreakpoint(bp)
        } else {
            match self.gba.step() {
                Ok(insn) => Report::Executed(insn, self.gba.cpu.get_next_pc()),
                Err(GBAError::CpuError(e)) => Report::Failed(e),
            }
        }
    }

    /// Runs `count` steps of the debugger and returns what each had to tell.
    pub fn step_many(&mut self, count: usize) -> (r: Vec<Report>)
        requires
            old(self).gba.wf(),
        ensures
            final(self).gba.wf(),
            final(self).running == old(self).running,
            final(self).previous_command == old(self).previous_command,
            final(self).gba.key_state == old(self).gba.key_state,
            final(self).gba.last_error == old(self).gba.last_error,
            (final(self).session(), r@) == spec_steps(old(self).session(), count as nat),
    {
        let mut reports: Vec<Report> = Vec::new();
        for i in 0..count
            invariant
                self.gba.wf(),
                self.running == old(self).running,
                self.previous_command == old(self).previous_command,
                self.gba.key_state == old(self).gba.key_state,
                self.gba.last_error == old(self).gba.last_error,
                spec_steps(self.session(), (count - i) as nat).0 == spec_steps(
                    old(self).session(),
                    count as nat,
                ).0,
                reports@ + spec_steps(self.session(), (count - i) as nat).1 == spec_steps(
                    old(self).session(),
                    count as nat,
                ).1,
        {
            let ghost before = self.session();
            let ghost told = reports@;
            let report: Report = self.step_once();
            reports.push(report);
            proof {
                let rest = spec_steps(self.session(), (count - i - 1) as nat).1;
                assert(reports@ + rest =~= told + (seq![report] + rest));
            }
        }
        proof {
            assert(reports@ + Seq::<Report>::empty() =~= reports@);
        }
        reports
    }

    /// Puts the processor back into the state after a reset.
    pub fn reset_cpu(&mut self)
        ensures
            final(self).gba.cpu == Core::spec_new(),
            final(self).gba.sysbus == old(self).gba.sysbus,
            final(self).gba.key_state == old(self).gba.key_state,
            final(self).gba.last_error == old(self).gba.last_error,
            final(self).running == old(self).running,
            final(self).breakpoints == old(self).breakpoints,
            final(self).previous_command == old(self).previous_command,
    {
        self.gba.cpu.reset();
    }

    /// Sets a breakpoint at `addr`, unless there is one.
    pub fn add_breakpoint(&mut self, addr: u32) -> (r: Report)
        ensures
            final(self).gba == old(self).gba,
            final(self).running == old(self).running,
            final(self).previous_command == old(self).previous_command,
            old(self).breakpoints@.contains(addr) ==> r == Report::BreakpointExists && final(self).breakpoints == old(self).breakpoints,
            !old(self).breakpoints@.contains(addr) ==> r == Report::BreakpointAdded(
                old(self).breakpoints@.len() as usize,
                addr,
            ) && final(self).breakpoints@ == old(self).breakpoints@.push(addr),
    {
        let mut found: bool = false;
        for i in 0..self.breakpoints.len()
            invariant
                *self == *old(self),
                found == exists|j: int| 0 <= j < i && self.breakpoints@[j] == addr,
        {
            if self.breakpoints[i] == addr {
                found = true;
            }
        }
        if found {
            Report::BreakpointExists
        } else {
            let new_index: usize = self.breakpoints.len();
            self.breakpoints.push(addr);
            Report::BreakpointAdded(new_index, addr)
        }
    }
}

impl Command {
    /// Carries the command out on the console of `debugger` and returns what
    /// it has to tell, in order.
    ///
    /// `Step` runs its steps and asks for the processor to be shown.
    /// `Continue` runs one step, and asks to be run again where the step ran
    /// an instruction without error. The commands that only show something
    /// change nothing and say what is to be shown.
    pub fn run(&self, debugger: &mut Debugger) -> (r: Vec<Report>)
        requires
            old(debugger).gba.wf(),
        ensures
            final(debugger).gba.wf(),
            final(debugger).previous_command == old(debugger).previous_command,
            final(debugger).gba.key_state == old(debugger).gba.key_state,
            final(debugger).gba.last_error == old(debugger).gba.last_error,
            final(debugger).running == (old(debugger).running && *self != Command::Quit),
            match *self {
                Command::Step(count) => (final(debugger).session(), r@) == (
                    spec_steps(old(debugger).session(), count as nat).0,
                    spec_steps(old(debugger).session(), count as nat).1.push(Report::ShowCpu),
                ),
                Command::Continue => {
                    let once = spec_step_once(old(debugger).session());
                    &&& final(debugger).session() == once.0
                    &&& r@ == if once.1 is Executed {
                        seq![once.1, Report::Unfinished]
                    } else {
                        seq![once.1]
                    }
                },
                Command::AddBreakpoint(addr) => {
                    &&& final(debugger).gba == old(debugger).gba
                    &&& if old(debugger).breakpoints@.contains(addr) {
                        &&& final(debugger).breakpoints == old(debugger).breakpoints
                        &&& r@ == seq![Report::BreakpointExists]
                    } else {
                        &&& final(debugger).breakpoints@ == old(debugger).breakpoints@.push(addr)
                        &&& r@ == seq![
                            Report::BreakpointAdded(old(debugger).breakpoints@.len() as usize, addr),
                        ]
                    }
                },
                Command::DelBreakpoint(addr) => {
                    &&& final(debugger).gba == old(debugger).gba
                    &&& final(debugger).breakpoints@ == without(old(debugger).breakpoints@, addr)
                    &&& r@.len() == 0
                },
                Command::ClearBreakpoints => {
                    &&& final(debugger).gba == old(debugger).gba
                    &&& final(debugger).breakpoints@.len() == 0
                    &&& r@.len() == 0
                },
                Command::Reset => {
                    &&& final(debugger).gba.cpu == Core::spec_new()
                    &&& final(debugger).gba.sysbus == old(debugger).gba.sysbus
                    &&& final(debugger).breakpoints == old(debugger).breakpoints
                    &&& r@ == seq![Report::Reset]
                },
                other => {
                    &&& final(debugger).gba == old(debugger).gba
                    &&& final(debugger).breakpoints == old(debugger).breakpoints
                    &&& r@ == seq![
                        match other {
                            Command::Info => Report::ShowCpu,
                            Command::HexDump(addr, n) => Report::HexDump(addr, n),
                            Command::Disass(mode, addr, n) => Report::Disass(mode, addr, n),
                            Command::PaletteView => Report::PaletteView,
                            Command::ListBreakpoints => Report::ListBreakpoints,
                            _ => Report::Quit,
                        },
                    ]
                },
            },
    {
        match *self {
            Command::Info => vec![Report::ShowCpu],
            Command::Step(count) => {
                let mut reports: Vec<Report> = debugger.step_many(count);
                reports.push(Report::ShowCpu);
                reports
            },
            Command::Continue => {
                let report: Report = debugger.step_once();
                let mut reports: Vec<Report> = Vec::new();
                reports.push(report);
                match report {
                    Report::Executed(_, _) => {
                        reports.push(Report::Unfinished);
                    },
                    _ => {},
                }
                assert(reports@ =~= if report is Executed {
                    seq![report, Report::Unfinished]
                } else {
                    seq![report]
                });
                reports
            },
            Command::HexDump(addr, nbytes) => vec![Report::HexDump(addr, nbytes)],
            Command::Disass(mode, addr, n) => vec![Report::Disass(mode, addr, n)],
            Command::Quit => {
                debugger.stop();
                vec![Report::Quit]
            },
            Command::AddBreakpoint(addr) => {
                let report: Report = debugger.add_breakpoint(addr);
                vec![report]
            },
            Command::DelBreakpoint(addr) => {
                debugger.delete_breakpoint(addr);
                Vec::new()
            },
            Command::ClearBreakpoints => {
                debugger.breakpoints.clear();
                Vec::new()
            },
            Command::ListBreakpoints => vec![Report::ListBreakpoints],
            Command::PaletteView => vec![Report::PaletteView],
            Command::Reset => {
                debugger.reset_cpu();
                vec![Report::Reset]
            },
        }
    }
}

} // verus!
