//! The devices behind the I/O window of the memory map: the graphics unit,
//! the interrupt controller, the wait-state register and the key-input
//! register.
//!
//! A register is a halfword at an even offset of the window. Offsets that
//! hold no register read as zero and take writes without effect.

use crate::bus::Addr;
use crate::bus::Bus;
use crate::gpu::regs::BgControl;
use crate::gpu::regs::DisplayControl;
use crate::gpu::regs::RegMosaic;
use crate::gpu::Background;
use crate::gpu::Gpu;
use crate::interrupt::InterruptController;
use crate::keypad::KEYINPUT_ALL_RELEASED;
use vstd::array::spec_array_update;
use vstd::prelude::*;

verus! {

/// Offset of the display control register.
pub const REG_DISPCNT: u32 = 0x000;

/// Offset of the display status register.
pub const REG_DISPSTAT: u32 = 0x004;

/// Offset of the scanline counter.
pub const REG_VCOUNT: u32 = 0x006;

/// Offset of the control register of background 0; those of backgrounds 1 to 3
/// follow, one halfword each.
pub const REG_BG0CNT: u32 = 0x008;

/// Offset of the horizontal scroll register of background 0; the vertical one
/// and those of backgrounds 1 to 3 follow, one halfword each.
pub const REG_BG0HOFS: u32 = 0x010;

/// Offset of the first rotation and scaling register of background 2; the
/// block of both rotated backgrounds is 32 bytes long.
pub const REG_BG2PA: u32 = 0x020;

/// Offset of the horizontal span of window 0.
pub const REG_WIN0H: u32 = 0x040;

/// Offset of the horizontal span of window 1.
pub const REG_WIN1H: u32 = 0x042;

/// Offset of the vertical span of window 0.
pub const REG_WIN0V: u32 = 0x044;

/// Offset of the vertical span of window 1.
pub const REG_WIN1V: u32 = 0x046;

/// Offset of the register that says what shows inside the two windows.
pub const REG_WININ: u32 = 0x048;

/// Offset of the register that says what shows outside the windows and in
/// the object window.
pub const REG_WINOUT: u32 = 0x04a;

/// Offset of the mosaic size register.
pub const REG_MOSAIC: u32 = 0x04c;

/// Offset of the colour effect control register.
pub const REG_BLDCNT: u32 = 0x050;

/// Offset of the blend coefficient register.
pub const REG_BLDALPHA: u32 = 0x052;

/// Offset of the brightness coefficient register.
pub const REG_BLDY: u32 = 0x054;

/// Offset of the key-input register.
pub const REG_KEYINPUT: u32 = 0x130;

/// Offset of the interrupt enable register.
pub const REG_IE: u32 = 0x200;

/// Offset of the interrupt request flags.
pub const REG_IF: u32 = 0x202;

/// Offset of the wait-state control register.
pub const REG_WAITCNT: u32 = 0x204;

/// Offset of the interrupt master enable register.
pub const REG_IME: u32 = 0x208;

/// Offset of the flag that the BIOS sets once the console has booted.
pub const REG_POSTFLG: u32 = 0x300;

/// The offset that the window's far mirror of POSTFLG is mapped to.
pub const REG_POSTFLG_MIRROR: u32 = 0x800;

/// WAITCNT: the wait states of the cartridge windows.
#[derive(Debug, Clone, Copy, PartialEq, Eq, Structural)]
pub struct WaitControl(pub u16);

impl WaitControl {
    /// Index of the first-access wait of window 0, bits 2 and 3.
    pub open spec fn spec_ws0_first_access(self) -> usize {
        ((self.0 / 4) % 4) as usize
    }

    /// Index of the first-access wait of window 0, bits 2 and 3.
    #[verifier::when_used_as_spec(spec_ws0_first_access)]
    pub fn ws0_first_access(self) -> (r: usize)
        ensures
            r == self.spec_ws0_first_access(),
            r < 4,
    {
        ((self.0 / 4) % 4) as usize
    }

    /// Index of the second-access wait of window 0, bit 4.
    pub open spec fn spec_ws0_second_access(self) -> usize {
        ((self.0 / 16) % 2) as usize
    }

    /// Index of the second-access wait of window 0, bit 4.
    #[verifier::when_used_as_spec(spec_ws0_second_access)]
    pub fn ws0_second_access(self) -> (r: usize)
        ensures
            r == self.spec_ws0_second_access(),
            r < 2,
    {
        ((self.0 / 16) % 2) as usize
    }

    /// Index of the first-access wait of window 1, bits 5 and 6.
    pub open spec fn spec_ws1_first_access(self) -> usize {
        ((self.0 / 32) % 4) as usize
    }

    /// Index of the first-access wait of window 1, bits 5 and 6.
    #[verifier::when_used_as_spec(spec_ws1_first_access)]
    pub fn ws1_first_access(self) -> (r: usize)
        ensures
            r == self.spec_ws1_first_access(),
            r < 4,
    {
        ((self.0 / 32) % 4) as usize
    }

    /// Index of the second-access wait of window 1, bit 7.
    pub open spec fn spec_ws1_second_access(self) -> usize {
        ((self.0 / 128) % 2) as usize
    }

    /// Index of the second-access wait of window 1, bit 7.
    #[verifier::when_used_as_spec(spec_ws1_second_access)]
    pub fn ws1_second_access(self) -> (r: usize)
        ensures
            r == self.spec_ws1_second_access(),
            r < 2,
    {
        ((self.0 / 128) % 2) as usize
    }

    /// Index of the first-access wait of window 2, bits 8 and 9.
    pub open spec fn spec_ws2_first_access(self) -> usize {
        ((self.0 / 256) % 4) as usize
    }

    /// Index of the first-access wait of window 2, bits 8 and 9.
    #[verifier::when_used_as_spec(spec_ws2_first_access)]
    pub fn ws2_first_access(self) -> (r: usize)
        ensures
            r == self.spec_ws2_first_access(),
            r < 4,
    {
        ((self.0 / 256) % 4) as usize
    }

    /// Index of the second-access wait of window 2, bit 10.
    pub open spec fn spec_ws2_second_access(self) -> usize {
        ((self.0 / 1024) % 2) as usize
    }

    /// Index of the second-access wait of window 2, bit 10.
    #[verifier::when_used_as_spec(spec_ws2_second_access)]
    pub fn ws2_second_access(self) -> (r: usize)
        ensures
            r == self.spec_ws2_second_access(),
            r < 2,
    {
        ((self.0 / 1024) % 2) as usize
    }
}

/// The devices behind the I/O window.
pub struct IoDevices {
    /// The interrupt controller.
    pub intc: InterruptController,
    /// The graphics unit.
    pub gpu: Gpu,
    /// WAITCNT.
    pub waitcnt: WaitControl,
    /// KEYINPUT: bits 0 to 9 are clear for the keys that are held.
    pub keyinput: u16,
    /// POSTFLG: set by the BIOS once the console has booted.
    pub post_boot_flag: bool,
}

/// 1 for `true`, 0 for `false`.
pub open spec fn halfword_of(b: bool) -> u16 {
    if b {
        1
    } else {
        0
    }
}

/// The halfword `old` with one of its bytes replaced: the low byte at an even
/// address, the high byte at an odd one.
pub open spec fn with_byte(old: u16, addr: u32, value: u8) -> u16 {
    if addr % 2 == 0 {
        ((old / 256) * 256 + value) as u16
    } else {
        (old % 256 + 256 * value) as u16
    }
}

impl IoDevices {
    /// The devices as they are when the console is switched on: no key held,
    /// everything else clear.
    pub fn new() -> (r: IoDevices)
        ensures
            r.wf(),
            r.is_fresh(),
    {
        IoDevices {
            intc: InterruptController::new(),
            gpu: Gpu::new(),
            waitcnt: WaitControl(0),
            keyinput: KEYINPUT_ALL_RELEASED,
            post_boot_flag: false,
        }
    }

    /// Whether the devices are as they are when the console is switched on:
    /// no key held, no interrupt enabled or pending, the wait-state control
    /// and the boot flag clear, the graphics unit fresh.
    pub open spec fn is_fresh(self) -> bool {
        &&& self.keyinput == KEYINPUT_ALL_RELEASED
        &&& self.waitcnt.0 == 0
        &&& !self.post_boot_flag
        &&& self.intc == (InterruptController {
            interrupt_master_enable: false,
            interrupt_enable: 0,
            interrupt_flags: 0,
        })
        &&& self.gpu.is_fresh()
    }

    /// The clock of the graphics unit is in a valid place.
    pub open spec fn wf(&self) -> bool {
        self.gpu.wf()
    }

    /// The halfword of the register at the even offset `addr`.
    pub open spec fn spec_read_16(&self, addr: u32) -> u16 {
        if addr == REG_DISPCNT {
            self.gpu.dispcnt.0
        } else if addr == REG_DISPSTAT {
            self.gpu.dispstat.spec_read()
        } else if addr == REG_VCOUNT {
            self.gpu.vcount as u16
        } else if REG_BG0CNT <= addr < REG_BG0HOFS {
            self.gpu.bg[(addr - REG_BG0CNT) / 2].bgcnt.0
        } else if REG_BG0HOFS <= addr < REG_BG2PA {
            if addr % 4 == 0 {
                self.gpu.bg[(addr - REG_BG0HOFS) / 4].hofs
            } else {
                self.gpu.bg[(addr - REG_BG0HOFS) / 4].vofs
            }
        } else if REG_BG2PA <= addr < REG_WIN0H {
            self.gpu.affine[(addr - REG_BG2PA) / 2]
        } else if addr == REG_WIN0H || addr == REG_WIN1H {
            self.gpu.winh[(addr - REG_WIN0H) / 2]
        } else if addr == REG_WIN0V || addr == REG_WIN1V {
            self.gpu.winv[(addr - REG_WIN0V) / 2]
        } else if addr == REG_WININ {
            self.gpu.winin
        } else if addr == REG_WINOUT {
            self.gpu.winout
        } else if addr == REG_MOSAIC {
            self.gpu.mosaic.0
        } else if addr == REG_BLDCNT {
            self.gpu.bldcnt
        } else if addr == REG_BLDALPHA {
            self.gpu.bldalpha
        } else if addr == REG_BLDY {
            self.gpu.bldy
        } else if addr == REG_KEYINPUT {
            self.keyinput
        } else if addr == REG_IE {
            self.intc.interrupt_enable
        } else if addr == REG_IF {
            self.intc.interrupt_flags
        } else if addr == REG_WAITCNT {
            self.waitcnt.0
        } else if addr == REG_IME {
            halfword_of(self.intc.interrupt_master_enable)
        } else if addr == REG_POSTFLG || addr == REG_POSTFLG_MIRROR {
            halfword_of(self.post_boot_flag)
        } else {
            0
        }
    }

    /// The byte at offset `addr`: one half of the register that it lies in.
    pub open spec fn spec_read_8(&self, addr: u32) -> u8 {
        let half = self.spec_read_16((addr - addr % 2) as u32);
        if addr % 2 == 0 {
            (half % 256) as u8
        } else {
            (half / 256) as u8
        }
    }

    /// The word at offset `addr`: the register there and the one after it.
    pub open spec fn spec_read_32(&self, addr: u32) -> u32 {
        (self.spec_read_16(addr) + 65536 * self.spec_read_16(addr.wrapping_add(2))) as u32
    }

    /// The devices after the halfword `value` was written to the register at
    /// the even offset `addr`.
    ///
    /// VCOUNT and KEYINPUT are read-only, as are the three status flags of
    /// DISPSTAT. A write to one half of a reference point of a rotated
    /// background makes the graphics unit start again from the register. A write to IF acknowledges the requests whose bits are set
    /// in `value`. IE keeps the bits of the fourteen sources, WAITCNT its low
    /// fifteen bits, the scroll registers their low nine, IME and POSTFLG
    /// their lowest.
    pub open spec fn spec_write_16(self, addr: u32, value: u16) -> IoDevices {
        if addr == REG_DISPCNT {
            IoDevices { gpu: Gpu { dispcnt: DisplayControl(value), ..self.gpu }, ..self }
        } else if addr == REG_DISPSTAT {
            IoDevices {
                gpu: Gpu { dispstat: self.gpu.dispstat.spec_write(value), ..self.gpu },
                ..self
            }
        } else if REG_BG0CNT <= addr < REG_BG0HOFS {
            let i = (addr - REG_BG0CNT) / 2;
            IoDevices {
                gpu: Gpu {
                    bg: spec_array_update(
                        self.gpu.bg,
                        i,
                        Background { bgcnt: BgControl(value), ..self.gpu.bg[i] },
                    ),
                    ..self.gpu
                },
                ..self
            }
        } else if REG_BG0HOFS <= addr < REG_BG2PA {
            let i = (addr - REG_BG0HOFS) / 4;
            let layer = if addr % 4 == 0 {
                Background { hofs: value % 512, ..self.gpu.bg[i] }
            } else {
                Background { vofs: value % 512, ..self.gpu.bg[i] }
            };
            IoDevices {
                gpu: Gpu { bg: spec_array_update(self.gpu.bg, i, layer), ..self.gpu },
                ..self
            }
        } else if REG_BG2PA <= addr < REG_WIN0H {
            let i = (addr - REG_BG2PA) / 2;
            let affine = spec_array_update(self.gpu.affine, i as int, value);
            IoDevices {
                gpu: Gpu {
                    affine,
                    affine_ref: if i % 8 >= 4 {
                        let r = 2 * (i / 8) + (i % 8 - 4) / 2;
                        spec_array_update(
                            self.gpu.affine_ref,
                            r as int,
                            crate::gpu::affine::spec_kept_reference(
                                affine[crate::gpu::affine::reference_register(r as int)],
                                affine[crate::gpu::affine::reference_register(r as int) + 1],
                            ),
                        )
                    } else {
                        self.gpu.affine_ref
                    },
                    ..self.gpu
                },
                ..self
            }
        } else if addr == REG_WIN0H || addr == REG_WIN1H {
            IoDevices {
                gpu: Gpu {
                    winh: spec_array_update(self.gpu.winh, (addr - REG_WIN0H) / 2, value),
                    ..self.gpu
                },
                ..self
            }
        } else if addr == REG_WIN0V || addr == REG_WIN1V {
            IoDevices {
                gpu: Gpu {
                    winv: spec_array_update(self.gpu.winv, (addr - REG_WIN0V) / 2, value),
                    ..self.gpu
                },
                ..self
            }
        } else if addr == REG_WININ {
            IoDevices { gpu: Gpu { winin: value, ..self.gpu }, ..self }
        } else if addr == REG_WINOUT {
            IoDevices { gpu: Gpu { winout: value, ..self.gpu }, ..self }
        } else if addr == REG_MOSAIC {
            IoDevices { gpu: Gpu { mosaic: RegMosaic(value), ..self.gpu }, ..self }
        } else if addr == REG_BLDCNT {
            IoDevices { gpu: Gpu { bldcnt: value, ..self.gpu }, ..self }
        } else if addr == REG_BLDALPHA {
            IoDevices { gpu: Gpu { bldalpha: value, ..self.gpu }, ..self }
        } else if addr == REG_BLDY {
            IoDevices { gpu: Gpu { bldy: value, ..self.gpu }, ..self }
        } else if addr == REG_IE {
            IoDevices {
                intc: InterruptController { interrupt_enable: value % 0x4000, ..self.intc },
                ..self
            }
        } else if addr == REG_IF {
            IoDevices {
                intc: InterruptController {
                    interrupt_flags: self.intc.interrupt_flags & !value,
                    ..self.intc
                },
                ..self
            }
        } else if addr == REG_WAITCNT {
            IoDevices { waitcnt: WaitControl(value % 0x8000), ..self }
        } else if addr == REG_IME {
            IoDevices {
                intc: InterruptController { interrupt_master_enable: value % 2 == 1, ..self.intc },
                ..self
            }
        } else if addr == REG_POSTFLG || addr == REG_POSTFLG_MIRROR {
            IoDevices { post_boot_flag: value % 2 == 1, ..self }
        } else {
            self
        }
    }

    /// The devices after the byte `value` was written at offset `addr`.
    ///
    /// In IF the byte acknowledges the requests of its half of the register.
    /// Everywhere else the other half of the register is written back as it
    /// reads.
    pub open spec fn spec_write_8(self, addr: u32, value: u8) -> IoDevices {
        let even = (addr - addr % 2) as u32;
        if even == REG_IF {
            self.spec_write_16(even, with_byte(0, addr, value))
        } else {
            self.spec_write_16(even, with_byte(self.spec_read_16(even), addr, value))
        }
    }

    /// The devices after the word `value` was written at offset `addr`: its
    /// low half goes to the register there, its high half to the one after
    /// it.
    pub open spec fn spec_write_32(self, addr: u32, value: u32) -> IoDevices {
        self.spec_write_16(addr, (value % 65536) as u16).spec_write_16(
            addr.wrapping_add(2),
            (value / 65536) as u16,
        )
    }
}

impl Bus for IoDevices {
    fn read_32(&self, addr: Addr) -> (r: u32)
        ensures
            r == self.spec_read_32(addr),
    {
        let lo: u32 = self.read_16(addr) as u32;
        let hi: u32 = self.read_16(addr.wrapping_add(2)) as u32;
        lo + 65536 * hi
    }

    fn read_16(&self, addr: Addr) -> (r: u16)
        ensures
            r == self.spec_read_16(addr),
    {
        if addr == REG_DISPCNT {
            self.gpu.dispcnt.0
        } else if addr == REG_DISPSTAT {
            self.gpu.dispstat.read()
        } else if addr == REG_VCOUNT {
            self.gpu.vcount as u16
        } else if REG_BG0CNT <= addr && addr < REG_BG0HOFS {
            self.gpu.bg[((addr - REG_BG0CNT) / 2) as usize].bgcnt.0
        } else if REG_BG0HOFS <= addr && addr < REG_BG2PA {
            if addr % 4 == 0 {
                self.gpu.bg[((addr - REG_BG0HOFS) / 4) as usize].hofs
            } else {
                self.gpu.bg[((addr - REG_BG0HOFS) / 4) as usize].vofs
            }
        } else if REG_BG2PA <= addr && addr < REG_WIN0H {
            self.gpu.affine[((addr - REG_BG2PA) / 2) as usize]
        } else if addr == REG_WIN0H || addr == REG_WIN1H {
            self.gpu.winh[((addr - REG_WIN0H) / 2) as usize]
        } else if addr == REG_WIN0V || addr == REG_WIN1V {
            self.gpu.winv[((addr - REG_WIN0V) / 2) as usize]
        } else if addr == REG_WININ {
            self.gpu.winin
        } else if addr == REG_WINOUT {
            self.gpu.winout
        } else if addr == REG_MOSAIC {
            self.gpu.mosaic.0
        } else if addr == REG_BLDCNT {
            self.gpu.bldcnt
        } else if addr == REG_BLDALPHA {
            self.gpu.bldalpha
        } else if addr == REG_BLDY {
            self.gpu.bldy
        } else if addr == REG_KEYINPUT {
            self.keyinput
        } else if addr == REG_IE {
            self.intc.interrupt_enable
        } else if addr == REG_IF {
            self.intc.interrupt_flags
        } else if addr == REG_WAITCNT {
            self.waitcnt.0
        } else if addr == REG_IME {
            if self.intc.interrupt_master_enable {
                1
            } else {
                0
            }
        } else if addr == REG_POSTFLG || addr == REG_POSTFLG_MIRROR {
            if self.post_boot_flag {
                1
            } else {
                0
            }
        } else {
            0
        }
    }

    fn read_8(&self, addr: Addr) -> (r: u8)
        ensures
            r == self.spec_read_8(addr),
    {
        let half: u16 = self.read_16(addr - addr % 2);
        if addr % 2 == 0 {
            (half % 256) as u8
        } else {
            (half / 256) as u8
        }
    }

    fn write_32(&mut self, addr: Addr, value: u32)
        ensures
            *final(self) == old(self).spec_write_32(addr, value),
    {
        self.write_16(addr, (value % 65536) as u16);
        self.write_16(addr.wrapping_add(2), (value / 65536) as u16);
    }

    fn write_16(&mut self, addr: Addr, value: u16)
        ensures
            *final(self) == old(self).spec_write_16(addr, value),
    {
        if addr == REG_DISPCNT {
            self.gpu.dispcnt = DisplayControl(value);
        } else if addr == REG_DISPSTAT {
            self.gpu.dispstat.write(value);
        } else if REG_BG0CNT <= addr && addr < REG_BG0HOFS {
            self.gpu.bg[((addr - REG_BG0CNT) / 2) as usize].bgcnt = BgControl(value);
        } else if REG_BG0HOFS <= addr && addr < REG_BG2PA {
            if addr % 4 == 0 {
                self.gpu.bg[((addr - REG_BG0HOFS) / 4) as usize].hofs = value % 512;
            } else {
                self.gpu.bg[((addr - REG_BG0HOFS) / 4) as usize].vofs = value % 512;
            }
        } else if REG_BG2PA <= addr && addr < REG_WIN0H {
            let i: usize = ((addr - REG_BG2PA) / 2) as usize;
            self.gpu.affine[i] = value;
            if i % 8 >= 4 {
                let r: usize = 2 * (i / 8) + (i % 8 - 4) / 2;
                let at: usize = 8 * (r / 2) + 4 + 2 * (r % 2);
                self.gpu.affine_ref[r] = crate::gpu::affine::kept_reference(
                    self.gpu.affine[at],
                    self.gpu.affine[at + 1],
                );
            }
        } else if addr == REG_WIN0H || addr == REG_WIN1H {
            self.gpu.winh[((addr - REG_WIN0H) / 2) as usize] = value;
        } else if addr == REG_WIN0V || addr == REG_WIN1V {
            self.gpu.winv[((addr - REG_WIN0V) / 2) as usize] = value;
        } else if addr == REG_WININ {
            self.gpu.winin = value;
        } else if addr == REG_WINOUT {
            self.gpu.winout = value;
        } else if addr == REG_MOSAIC {
            self.gpu.mosaic = RegMosaic(value);
        } else if addr == REG_BLDCNT {
            self.gpu.bldcnt = value;
        } else if addr == REG_BLDALPHA {
            self.gpu.bldalpha = value;
        } else if addr == REG_BLDY {
            self.gpu.bldy = value;
        } else if addr == REG_IE {
            self.intc.interrupt_enable = value % 0x4000;
        } else if addr == REG_IF {
            self.intc.acknowledge(value);
        } else if addr == REG_WAITCNT {
            self.waitcnt = WaitControl(value % 0x8000);
        } else if addr == REG_IME {
            self.intc.interrupt_master_enable = value % 2 == 1;
        } else if addr == REG_POSTFLG || addr == REG_POSTFLG_MIRROR {
            self.post_boot_flag = value % 2 == 1;
        }
        assert(*self =~~= old(self).spec_write_16(addr, value));
    }

    fn write_8(&mut self, addr: Addr, value: u8)
        ensures
            *final(self) == old(self).spec_write_8(addr, value),
    {
        let even: u32 = addr - addr % 2;
        let old: u16 = if even == REG_IF {
            0
        } else {
            self.read_16(even)
        };
        let merged: u16 = if addr % 2 == 0 {
            (old / 256) * 256 + value as u16
        } else {
            old % 256 + 256 * (value as u16)
        };
        self.write_16(even, merged);
    }
}

/// A write to a register leaves the clock of the graphics unit where it is.
pub proof fn lemma_write_keeps_timing(io: IoDevices, addr: u32, value: u16)
    ensures
        io.spec_write_16(addr, value).gpu.timing() == io.gpu.timing(),
        io.spec_write_16(addr, value).wf() == io.wf(),
        io.spec_write_16(addr, value).gpu.frames == io.gpu.frames,
        io.spec_write_16(addr, value).keyinput == io.keyinput,
{
}

} // verus!
