//! The registers of the graphics unit that the scanline engine reads.
//!
//! A register is kept as the halfword that the processor wrote; each field is
//! read out of it by division and remainder, which is the same as shifting
//! and masking.

use vstd::prelude::*;

verus! {

/// Bit `pos` of `raw` as division and remainder give it, `weight` being two
/// to the power `pos`.
pub open spec fn flag(raw: u16, weight: int) -> bool {
    (raw as int / weight) % 2 == 1
}

/// DISPCNT: the display control register.
#[derive(Debug, Clone, Copy, PartialEq, Eq, Structural)]
pub struct DisplayControl(pub u16);

impl DisplayControl {
    /// The background mode, bits 0 to 2.
    pub open spec fn spec_mode(self) -> u16 {
        self.0 % 8
    }

    /// The background mode, bits 0 to 2.
    #[verifier::when_used_as_spec(spec_mode)]
    pub fn mode(self) -> (r: u16)
        ensures
            r == self.spec_mode(),
            r < 8,
    {
        self.0 % 8
    }

    /// Which of the two frames a bitmap mode shows, bit 4.
    pub open spec fn spec_display_frame(self) -> bool {
        flag(self.0, 16)
    }

    /// Which of the two frames a bitmap mode shows, bit 4.
    #[verifier::when_used_as_spec(spec_display_frame)]
    pub fn display_frame(self) -> (r: bool)
        ensures
            r == self.spec_display_frame(),
    {
        (self.0 / 16) % 2 == 1
    }

    /// Forced blank, bit 7: the screen shows white.
    pub open spec fn spec_force_blank(self) -> bool {
        flag(self.0, 128)
    }

    /// Forced blank, bit 7.
    #[verifier::when_used_as_spec(spec_force_blank)]
    pub fn force_blank(self) -> (r: bool)
        ensures
            r == self.spec_force_blank(),
    {
        (self.0 / 128) % 2 == 1
    }

    /// Whether background `bg` is switched on, bits 8 to 11. No background
    /// above 3 exists.
    pub open spec fn spec_disp_bg(self, bg: usize) -> bool {
        if bg == 0 {
            flag(self.0, 256)
        } else if bg == 1 {
            flag(self.0, 512)
        } else if bg == 2 {
            flag(self.0, 1024)
        } else if bg == 3 {
            flag(self.0, 2048)
        } else {
            false
        }
    }

    /// Whether background `bg` is switched on.
    #[verifier::when_used_as_spec(spec_disp_bg)]
    pub fn disp_bg(self, bg: usize) -> (r: bool)
        ensures
            r == self.spec_disp_bg(bg),
    {
        if bg == 0 {
            (self.0 / 256) % 2 == 1
        } else if bg == 1 {
            (self.0 / 512) % 2 == 1
        } else if bg == 2 {
            (self.0 / 1024) % 2 == 1
        } else if bg == 3 {
            (self.0 / 2048) % 2 == 1
        } else {
            false
        }
    }

    /// Whether objects are switched on, bit 12.
    pub open spec fn spec_disp_obj(self) -> bool {
        flag(self.0, 4096)
    }

    /// Whether objects are switched on, bit 12.
    #[verifier::when_used_as_spec(spec_disp_obj)]
    pub fn disp_obj(self) -> (r: bool)
        ensures
            r == self.spec_disp_obj(),
    {
        (self.0 / 4096) % 2 == 1
    }

    /// Whether any of the three windows is switched on, bits 13 to 15.
    pub open spec fn spec_disp_window(self) -> bool {
        self.0 >= 8192
    }

    /// Whether any of the three windows is switched on, bits 13 to 15.
    #[verifier::when_used_as_spec(spec_disp_window)]
    pub fn disp_window(self) -> (r: bool)
        ensures
            r == self.spec_disp_window(),
    {
        self.0 >= 8192
    }
}

/// DISPSTAT: the display status register, field by field.
#[derive(Debug, Clone, Copy, PartialEq, Eq, Structural)]
pub struct DisplayStatus {
    /// Bit 0: the unit is in vertical blank.
    pub vblank_flag: bool,
    /// Bit 1: the unit is in horizontal blank.
    pub hblank_flag: bool,
    /// Bit 2: the current scanline is the one in `vcount_setting`.
    pub vcount_flag: bool,
    /// Bit 3: entering vertical blank asks for an interrupt.
    pub vblank_irq_enable: bool,
    /// Bit 4: entering horizontal blank asks for an interrupt.
    pub hblank_irq_enable: bool,
    /// Bit 5: reaching the scanline in `vcount_setting` asks for an interrupt.
    pub vcount_irq_enable: bool,
    /// Bits 8 to 15: the scanline to compare with.
    pub vcount_setting: u8,
}

/// 1 for a set flag, 0 for a clear one.
pub open spec fn bit_value(b: bool) -> int {
    if b {
        1
    } else {
        0
    }
}

impl DisplayStatus {
    /// The register with every field clear.
    pub fn new() -> (r: DisplayStatus)
        ensures
            r.spec_read() == 0,
            !r.vblank_flag && !r.hblank_flag && !r.vcount_flag,
            !r.vblank_irq_enable && !r.hblank_irq_enable && !r.vcount_irq_enable,
            r.vcount_setting == 0,
    {
        DisplayStatus {
            vblank_flag: false,
            hblank_flag: false,
            vcount_flag: false,
            vblank_irq_enable: false,
            hblank_irq_enable: false,
            vcount_irq_enable: false,
            vcount_setting: 0,
        }
    }

    /// The halfword that a read of the register yields.
    pub open spec fn spec_read(self) -> u16 {
        (bit_value(self.vblank_flag) + 2 * bit_value(self.hblank_flag) + 4 * bit_value(
            self.vcount_flag,
        ) + 8 * bit_value(self.vblank_irq_enable) + 16 * bit_value(self.hblank_irq_enable) + 32
            * bit_value(self.vcount_irq_enable) + 256 * (self.vcount_setting as int)) as u16
    }

    /// The halfword that a read of the register yields.
    #[verifier::when_used_as_spec(spec_read)]
    pub fn read(self) -> (r: u16)
        ensures
            r == self.spec_read(),
    {
        let mut r: u16 = 256 * (self.vcount_setting as u16);
        if self.vblank_flag {
            r = r + 1;
        }
        if self.hblank_flag {
            r = r + 2;
        }
        if self.vcount_flag {
            r = r + 4;
        }
        if self.vblank_irq_enable {
            r = r + 8;
        }
        if self.hblank_irq_enable {
            r = r + 16;
        }
        if self.vcount_irq_enable {
            r = r + 32;
        }
        r
    }

    /// The register after the processor wrote `value`: the three enables and
    /// the scanline setting are taken from it, the three status flags are
    /// read-only and stay.
    pub open spec fn spec_write(self, value: u16) -> DisplayStatus {
        DisplayStatus {
            vblank_irq_enable: flag(value, 8),
            hblank_irq_enable: flag(value, 16),
            vcount_irq_enable: flag(value, 32),
            vcount_setting: (value / 256) as u8,
            ..self
        }
    }

    /// Takes a write by the processor.
    pub fn write(&mut self, value: u16)
        ensures
            *final(self) == old(self).spec_write(value),
    {
        self.vblank_irq_enable = (value / 8) % 2 == 1;
        self.hblank_irq_enable = (value / 16) % 2 == 1;
        self.vcount_irq_enable = (value / 32) % 2 == 1;
        self.vcount_setting = (value / 256) as u8;
    }
}

/// BGxCNT: the control register of one background.
#[derive(Debug, Clone, Copy, PartialEq, Eq, Structural)]
pub struct BgControl(pub u16);

impl BgControl {
    /// Drawing priority, bits 0 and 1; 0 is in front.
    pub open spec fn spec_priority(self) -> u16 {
        self.0 % 4
    }

    /// Drawing priority, bits 0 and 1; 0 is in front.
    #[verifier::when_used_as_spec(spec_priority)]
    pub fn priority(self) -> (r: u16)
        ensures
            r == self.spec_priority(),
            r < 4,
    {
        self.0 % 4
    }

    /// The block of 16 KiB that holds the tiles, bits 2 and 3.
    pub open spec fn spec_character_base_block(self) -> u16 {
        (self.0 / 4) % 4
    }

    /// The block of 16 KiB that holds the tiles, bits 2 and 3.
    #[verifier::when_used_as_spec(spec_character_base_block)]
    pub fn character_base_block(self) -> (r: u16)
        ensures
            r == self.spec_character_base_block(),
            r < 4,
    {
        (self.0 / 4) % 4
    }

    /// Whether the mosaic effect applies, bit 6.
    pub open spec fn spec_mosaic(self) -> bool {
        flag(self.0, 64)
    }

    /// Whether the mosaic effect applies, bit 6.
    #[verifier::when_used_as_spec(spec_mosaic)]
    pub fn mosaic(self) -> (r: bool)
        ensures
            r == self.spec_mosaic(),
    {
        (self.0 / 64) % 2 == 1
    }

    /// Whether tiles hold one byte per pixel (256 colours) instead of half a
    /// byte (16 colours), bit 7.
    pub open spec fn spec_palette256(self) -> bool {
        flag(self.0, 128)
    }

    /// Whether tiles hold one byte per pixel, bit 7.
    #[verifier::when_used_as_spec(spec_palette256)]
    pub fn palette256(self) -> (r: bool)
        ensures
            r == self.spec_palette256(),
    {
        (self.0 / 128) % 2 == 1
    }

    /// The block of 2 KiB that holds the tile map, bits 8 to 12.
    pub open spec fn spec_screen_base_block(self) -> u16 {
        (self.0 / 256) % 32
    }

    /// The block of 2 KiB that holds the tile map, bits 8 to 12.
    #[verifier::when_used_as_spec(spec_screen_base_block)]
    pub fn screen_base_block(self) -> (r: u16)
        ensures
            r == self.spec_screen_base_block(),
            r < 32,
    {
        (self.0 / 256) % 32
    }

    /// The size of the tile map, bits 14 and 15.
    pub open spec fn spec_screen_size(self) -> u16 {
        self.0 / 16384
    }

    /// The size of the tile map, bits 14 and 15.
    #[verifier::when_used_as_spec(spec_screen_size)]
    pub fn screen_size(self) -> (r: u16)
        ensures
            r == self.spec_screen_size(),
            r < 4,
    {
        self.0 / 16384
    }
}

/// MOSAIC: the sizes of the mosaic blocks, each field one less than the size.
#[derive(Debug, Clone, Copy, PartialEq, Eq, Structural)]
pub struct RegMosaic(pub u16);

impl RegMosaic {
    /// Width of a background block less one, bits 0 to 3.
    pub open spec fn spec_bg_hsize(self) -> u16 {
        self.0 % 16
    }

    /// Width of a background block less one, bits 0 to 3.
    #[verifier::when_used_as_spec(spec_bg_hsize)]
    pub fn bg_hsize(self) -> (r: u16)
        ensures
            r == self.spec_bg_hsize(),
            r < 16,
    {
        self.0 % 16
    }

    /// Height of a background block less one, bits 4 to 7.
    pub open spec fn spec_bg_vsize(self) -> u16 {
        (self.0 / 16) % 16
    }

    /// Height of a background block less one, bits 4 to 7.
    #[verifier::when_used_as_spec(spec_bg_vsize)]
    pub fn bg_vsize(self) -> (r: u16)
        ensures
            r == self.spec_bg_vsize(),
            r < 16,
    {
        (self.0 / 16) % 16
    }

    /// Width of an object block less one, bits 8 to 11.
    pub open spec fn spec_obj_hsize(self) -> u16 {
        (self.0 / 256) % 16
    }

    /// Width of an object block less one, bits 8 to 11.
    #[verifier::when_used_as_spec(spec_obj_hsize)]
    pub fn obj_hsize(self) -> (r: u16)
        ensures
            r == self.spec_obj_hsize(),
            r < 16,
    {
        (self.0 / 256) % 16
    }

    /// Height of an object block less one, bits 12 to 15.
    pub open spec fn spec_obj_vsize(self) -> u16 {
        self.0 / 4096
    }

    /// Height of an object block less one, bits 12 to 15.
    #[verifier::when_used_as_spec(spec_obj_vsize)]
    pub fn obj_vsize(self) -> (r: u16)
        ensures
            r == self.spec_obj_vsize(),
            r < 16,
    {
        self.0 / 4096
    }
}

/// The halfword that `read` gives holds exactly the fields: writing a
/// register's own value back keeps every field that the processor can write.
pub proof fn lemma_display_status_write_of_read(s: DisplayStatus)
    ensures
        s.spec_write(s.spec_read()) == s,
{
    let r = s.spec_read();
    assert(s.spec_write(r).vcount_setting == s.vcount_setting);
}

} // verus!
