use rustboyadvance_core::bus::Bus;
use rustboyadvance_core::cartridge::Cartridge;
use rustboyadvance_core::iodev::IoDevices;
use rustboyadvance_core::sysbus::SysBus;
use rustboyadvance_core::gpu::compose::effect;
use rustboyadvance_core::gpu::compose::layer_bit;
use rustboyadvance_core::gpu::obj::object_sample;
use rustboyadvance_core::gpu::obj::read_sprite_pixel;
use rustboyadvance_core::gpu::obj::sprite_height;
use rustboyadvance_core::gpu::obj::sprite_width;
use rustboyadvance_core::gpu::regs::BgControl;
use rustboyadvance_core::gpu::regs::DisplayControl;
use rustboyadvance_core::gpu::sfx::blend;
use rustboyadvance_core::gpu::sfx::brighten;
use rustboyadvance_core::gpu::sfx::coefficient;
use rustboyadvance_core::gpu::sfx::darken;
use rustboyadvance_core::gpu::sfx::in_span;
use rustboyadvance_core::gpu::sfx::to_rgb555;
use rustboyadvance_core::gpu::Gpu;
use rustboyadvance_core::gpu::TRANSPARENT;
use rustboyadvance_core::sysbus::BoxedMemory;

const RED: u16 = 0x001f;
const GREEN: u16 = 0x03e0;
const BLUE: u16 = 0x7c00;

struct Scene {
    gpu: Gpu,
    palette: BoxedMemory,
    vram: BoxedMemory,
    oam: BoxedMemory,
}

impl Scene {
    /// Mode 3 with background 2 showing red on scanline 0 and green on
    /// scanline 1, over a blue backdrop; no object is switched on.
    fn bitmap() -> Scene {
        let mut s = Scene::empty();
        s.palette.write_16(0, BLUE);
        for x in 0..240 {
            s.vram.write_16(2 * x, RED);
            s.vram.write_16(2 * (240 + x), GREEN);
        }
        s.gpu.dispcnt = DisplayControl(3 | 0x0400);
        s
    }

    fn empty() -> Scene {
        let mut oam = BoxedMemory::zeroed(0x400);
        for i in 0..128 {
            oam.write_16(8 * i, 0x0200);
        }
        Scene {
            gpu: Gpu::new(),
            palette: BoxedMemory::zeroed(0x400),
            vram: BoxedMemory::zeroed(0x2_0000),
            oam,
        }
    }

    /// Renders the next scanline and returns it, in the colours of palette
    /// memory.
    fn next_line(&mut self) -> Vec<u16> {
        let y = self.gpu.vcount;
        self.gpu.step(960, &self.palette, &self.vram, &self.oam);
        let line = self.gpu.frame_buffer[240 * y..240 * (y + 1)].iter().map(|c| to_rgb555(*c)).collect();
        self.gpu.step(272, &self.palette, &self.vram, &self.oam);
        line
    }

    fn sprite(&mut self, i: u32, a0: u16, a1: u16, a2: u16) {
        self.oam.write_16(8 * i, a0);
        self.oam.write_16(8 * i + 2, a1);
        self.oam.write_16(8 * i + 4, a2);
    }
}

#[test]
fn colours_change_red_and_blue_on_the_way_to_the_frame_buffer() {
    assert_eq!(to_rgb555(RED), BLUE);
    assert_eq!(to_rgb555(BLUE), RED);
    assert_eq!(to_rgb555(GREEN), GREEN);
    assert_eq!(to_rgb555(0x7fff), 0x7fff);
    assert_eq!(to_rgb555(0), 0);
    assert_eq!(to_rgb555(0x1234), 0x5224);
    assert_eq!(to_rgb555(0x9234), 0x5224);
    for c in [0u16, 1, 0x1234, 0x7fff, 0x4567] {
        assert_eq!(to_rgb555(to_rgb555(c)), c);
    }
    let mut s = Scene::bitmap();
    s.gpu.step(960, &s.palette, &s.vram, &s.oam);
    assert_eq!(s.gpu.frame_buffer[0], BLUE);
    assert_eq!(s.gpu.bg[2].line[0], RED);
}

#[test]
fn blend_arithmetic() {
    assert_eq!(coefficient(0), 0);
    assert_eq!(coefficient(5), 5);
    assert_eq!(coefficient(16), 16);
    assert_eq!(coefficient(17), 16);
    assert_eq!(coefficient(0x1f), 16);
    assert_eq!(coefficient(0xffe5), 5);
    assert_eq!(blend(RED, BLUE, 8, 8), 0x3c0f);
    assert_eq!(blend(RED, BLUE, 16, 0), RED);
    assert_eq!(blend(RED, BLUE, 0, 16), BLUE);
    assert_eq!(blend(RED, RED, 16, 16), RED);
    assert_eq!(blend(0x0421, 0x0842, 16, 16), 0x0c63);
    assert_eq!(blend(0x4210, 0x4210, 16, 16), 0x7fff);
    assert_eq!(blend(0x7fff, 0x7fff, 1, 0), 0x0421);
    assert_eq!(brighten(0, 16), 0x7fff);
    assert_eq!(brighten(0, 0), 0);
    assert_eq!(brighten(0x0421, 8), 0x4210);
    assert_eq!(brighten(RED, 8), 0x3dff);
    assert_eq!(darken(0x7fff, 16), 0);
    assert_eq!(darken(0x7fff, 0), 0x7fff);
    assert_eq!(darken(0x7fff, 8), 0x4210);
    assert_eq!(darken(GREEN, 4), 0x0300);
}

#[test]
fn spans_run_over_the_edge() {
    assert!(in_span(5, 3, 8));
    assert!(in_span(3, 3, 8));
    assert!(!in_span(8, 3, 8));
    assert!(!in_span(2, 3, 8));
    assert!(!in_span(5, 5, 5));
    assert!(in_span(1, 200, 8));
    assert!(in_span(239, 200, 8));
    assert!(!in_span(100, 200, 8));
    assert!(!in_span(8, 200, 8));
}

#[test]
fn colour_effects_follow_bldcnt() {
    // blending of background 2 (in front) with the backdrop (behind)
    let alpha = 0x40 | (1 << 2) | (1 << 13);
    assert_eq!(effect(alpha, 0x0808, 0, true, false, 2, 5, RED, BLUE), 0x3c0f);
    // the window lets no effect through
    assert_eq!(effect(alpha, 0x0808, 0, false, false, 2, 5, RED, BLUE), RED);
    // the layer in front is not named
    assert_eq!(effect(alpha, 0x0808, 0, true, false, 1, 5, RED, BLUE), RED);
    // the layer behind is not named
    assert_eq!(effect(alpha, 0x0808, 0, true, false, 2, 3, RED, BLUE), RED);
    // a half-transparent object is blended whatever the effect
    assert_eq!(effect(1 << 13, 0x0808, 0, true, true, 4, 5, RED, BLUE), 0x3c0f);
    assert_eq!(effect(0x80 | (1 << 13) | (1 << 4), 0x0808, 16, true, true, 4, 5, RED, BLUE), 0x3c0f);
    assert_eq!(effect(0, 0x0808, 0, true, true, 4, 5, RED, BLUE), RED);
    // brightening and darkening of the layer in front
    assert_eq!(effect(0x80 | (1 << 5), 0, 16, true, false, 5, 5, BLUE, BLUE), 0x7fff);
    assert_eq!(effect(0xc0 | (1 << 0), 0, 16, true, false, 0, 5, RED, BLUE), 0);
    assert_eq!(effect(0xc0 | (1 << 1), 0, 16, true, false, 0, 5, RED, BLUE), RED);
    // no effect selected
    assert_eq!(effect(0x3f3f, 0x1010, 16, true, false, 0, 1, RED, BLUE), RED);
    for (layer, bit) in [(0usize, 1u16), (1, 2), (2, 4), (3, 8), (4, 16), (5, 32), (6, 32)] {
        assert_eq!(layer_bit(layer), bit);
    }
}

#[test]
fn a_window_lets_its_layers_through() {
    let mut s = Scene::bitmap();
    s.gpu.dispcnt = DisplayControl(3 | 0x0400 | 0x2000);
    s.gpu.winh[0] = (10 << 8) | 20;
    s.gpu.winv[0] = (0 << 8) | 1;
    s.gpu.winin = 0x0004;
    s.gpu.winout = 0x0000;
    let line = s.next_line();
    for x in 0..240 {
        assert_eq!(line[x], if (10..20).contains(&x) { RED } else { BLUE }, "pixel {x}");
    }
    assert!(s.next_line().iter().all(|c| *c == BLUE));
    // the other way round
    let mut s = Scene::bitmap();
    s.gpu.dispcnt = DisplayControl(3 | 0x0400 | 0x2000);
    s.gpu.winh[0] = (10 << 8) | 20;
    s.gpu.winv[0] = (0 << 8) | 1;
    s.gpu.winin = 0x0000;
    s.gpu.winout = 0x0004;
    let line = s.next_line();
    for x in 0..240 {
        assert_eq!(line[x], if (10..20).contains(&x) { BLUE } else { RED });
    }
    assert!(s.next_line().iter().all(|c| *c == GREEN));
}

#[test]
fn window_0_lies_over_window_1() {
    let mut s = Scene::bitmap();
    s.gpu.dispcnt = DisplayControl(3 | 0x0400 | 0x6000);
    s.gpu.winh = [(10 << 8) | 20, (15 << 8) | 30];
    s.gpu.winv = [(0 << 8) | 160, (0 << 8) | 160];
    // window 0 shows nothing, window 1 shows background 2, outside shows nothing
    s.gpu.winin = 0x0400;
    let line = s.next_line();
    for x in 0..240 {
        assert_eq!(line[x], if (20..30).contains(&x) { RED } else { BLUE }, "pixel {x}");
    }
    // a window that runs over the right edge
    s.gpu.dispcnt = DisplayControl(3 | 0x0400 | 0x4000);
    s.gpu.winh[1] = (230 << 8) | 5;
    let line = s.next_line();
    for x in 0..240 {
        assert_eq!(line[x], if x >= 230 || x < 5 { GREEN } else { BLUE }, "pixel {x}");
    }
}

#[test]
fn effects_through_the_registers() {
    // background 2 blended with the backdrop
    let mut s = Scene::bitmap();
    s.gpu.bldcnt = 0x40 | (1 << 2) | (1 << 13);
    s.gpu.bldalpha = 0x0808;
    assert!(s.next_line().iter().all(|c| *c == 0x3c0f));
    // brightened to white
    s.gpu.bldcnt = 0x80 | (1 << 2);
    s.gpu.bldy = 16;
    assert!(s.next_line().iter().all(|c| *c == 0x7fff));
    // a window that lets the layer through, but not the effect
    let mut s = Scene::bitmap();
    s.gpu.dispcnt = DisplayControl(3 | 0x0400 | 0x2000);
    s.gpu.winh[0] = (0 << 8) | 120;
    s.gpu.winv[0] = (0 << 8) | 160;
    s.gpu.winin = 0x0004;
    s.gpu.winout = 0x0024;
    s.gpu.bldcnt = 0xc0 | (1 << 2);
    s.gpu.bldy = 16;
    let line = s.next_line();
    for x in 0..240 {
        assert_eq!(line[x], if x < 120 { RED } else { 0 });
    }
}

#[test]
fn object_sizes() {
    let widths = [[8, 16, 32, 64], [16, 32, 32, 64], [8, 8, 16, 32]];
    let heights = [[8, 16, 32, 64], [8, 8, 16, 32], [16, 32, 32, 64]];
    for shape in 0..3u16 {
        for size in 0..4u16 {
            assert_eq!(sprite_width(shape, size), widths[shape as usize][size as usize]);
            assert_eq!(sprite_height(shape, size), heights[shape as usize][size as usize]);
        }
    }
}

/// A scene in mode 0 with the objects switched on, one tile after the other,
/// over a blue backdrop. Tile 1 of 16 colours holds the pixels 1, 2, 3 at
/// the left of its top row and the pixel 4 at the left of its bottom row;
/// bank 1 colours them.
fn object_scene() -> Scene {
    let mut s = Scene::empty();
    s.gpu.dispcnt = DisplayControl(0x1000 | 0x0040);
    s.palette.write_16(0, BLUE);
    for i in 1..5u16 {
        s.palette.write_16(0x200 + 2 * (16 + i as u32), 0x0100 + i);
    }
    s.vram.write_16(0x1_0000 + 32, 0x0321);
    s.vram.write_8(0x1_0000 + 32 + 4 * 7, 0x04);
    s
}

#[test]
fn an_object_is_drawn_at_its_place() {
    let mut s = object_scene();
    s.sprite(0, 0x0000, 0x0004, 0x1001);
    let line = s.next_line();
    assert_eq!(&line[3..9], &[BLUE, 0x0101, 0x0102, 0x0103, BLUE, BLUE]);
    assert_eq!(s.gpu.obj_line[4], 0x0101);
    assert_eq!(s.gpu.obj_line[0], TRANSPARENT);
    for _ in 1..7 {
        assert!(s.next_line().iter().all(|c| *c == BLUE));
    }
    let line = s.next_line();
    assert_eq!(&line[3..6], &[BLUE, 0x0104, BLUE]);
    assert!(s.next_line().iter().all(|c| *c == BLUE));
}

#[test]
fn objects_are_mirrored_and_come_in_at_the_other_edge() {
    // mirrored left to right
    let mut s = object_scene();
    s.sprite(0, 0x0000, 0x1004, 0x1001);
    assert_eq!(&s.next_line()[8..13], &[BLUE, 0x0103, 0x0102, 0x0101, BLUE]);
    // mirrored top to bottom
    let mut s = object_scene();
    s.sprite(0, 0x0000, 0x2004, 0x1001);
    assert_eq!(&s.next_line()[3..6], &[BLUE, 0x0104, BLUE]);
    // two pixels to the left of the screen
    let mut s = object_scene();
    s.sprite(0, 0x0000, 510, 0x1001);
    assert_eq!(&s.next_line()[0..2], &[0x0103, BLUE]);
    // seven scanlines above the screen
    let mut s = object_scene();
    s.sprite(0, 249, 0x0000, 0x1001);
    assert_eq!(&s.next_line()[0..2], &[0x0104, BLUE]);
    // switched off
    let mut s = object_scene();
    s.sprite(0, 0x0200, 0x0004, 0x1001);
    assert!(s.next_line().iter().all(|c| *c == BLUE));
    // rotated and scaled with all weights zero: every pixel shows the middle of the picture,
    // which is transparent
    let mut s = object_scene();
    s.sprite(0, 0x0100, 0x0004, 0x1001);
    assert!(s.next_line().iter().all(|c| *c == BLUE));
    // the objects as a whole switched off
    let mut s = object_scene();
    s.sprite(0, 0x0000, 0x0004, 0x1001);
    s.gpu.dispcnt = DisplayControl(0x0040);
    assert!(s.next_line().iter().all(|c| *c == BLUE));
}

#[test]
fn tiles_of_an_object_lie_in_a_row_or_in_a_grid() {
    // an object of 16 by 16 from tile 1 on: its second tile to the right is tile 2, its first
    // tile of the second row tile 3 where the tiles lie one after the other, and tile 33 in the grid
    let mut s = object_scene();
    s.vram.write_8(0x1_0000 + 32 * 2, 0x02);
    s.vram.write_8(0x1_0000 + 32 * 3, 0x03);
    s.vram.write_8(0x1_0000 + 32 * 33, 0x04);
    s.sprite(0, 0x0000, 0x4000, 0x1001);
    let line = s.next_line();
    assert_eq!(line[0], 0x0101);
    assert_eq!(line[8], 0x0102);
    for _ in 1..8 {
        s.next_line();
    }
    assert_eq!(s.next_line()[0], 0x0103);
    let mut s = object_scene();
    s.vram.write_8(0x1_0000 + 32 * 3, 0x03);
    s.vram.write_8(0x1_0000 + 32 * 33, 0x04);
    s.gpu.dispcnt = DisplayControl(0x1000);
    s.sprite(0, 0x0000, 0x4000, 0x1001);
    for _ in 0..8 {
        s.next_line();
    }
    assert_eq!(s.next_line()[0], 0x0104);
}

#[test]
fn objects_of_256_colours() {
    let mut s = object_scene();
    s.palette.write_16(0x200 + 2 * 200, 0x0222);
    // tile 2 and 3 hold one tile of 256 colours
    s.vram.write_8(0x1_0000 + 32 * 2 + 5, 200);
    s.vram.write_8(0x1_0000 + 32 * 3 + 8 * 3 + 7, 200);
    s.sprite(0, 0x2000, 0x0000, 0x0002);
    assert_eq!(&s.next_line()[4..7], &[BLUE, 0x0222, BLUE]);
    for _ in 1..7 {
        s.next_line();
    }
    assert_eq!(s.next_line()[7], 0x0222);
}

#[test]
fn the_first_tiles_of_the_objects_are_hidden_in_the_bitmap_modes() {
    let mut s = object_scene();
    s.gpu.dispcnt = DisplayControl(0x1000 | 0x0040 | 3);
    s.sprite(0, 0x0000, 0x0004, 0x1001);
    assert!(s.next_line().iter().all(|c| *c == BLUE));
    // the second scanline shows the second row of the tile
    s.vram.write_8(0x1_0000 + 32 * 512 + 4, 0x01);
    s.sprite(0, 0x0000, 0x0004, 0x1200);
    assert_eq!(&s.next_line()[3..6], &[BLUE, 0x0101, BLUE]);
}

#[test]
fn objects_and_backgrounds_are_stacked_by_priority() {
    let mut s = object_scene();
    // background 0 shows a tile of colour 0x0055 everywhere on its first row
    s.palette.write_16(2, 0x0055);
    for b in 0..4 {
        s.vram.write_8(0x20 + b, 0x11);
    }
    for t in 0..32 {
        s.vram.write_16(0x4000 + 2 * t, 0x0001);
    }
    s.gpu.bg[0].bgcnt = BgControl(8 << 8);
    s.gpu.dispcnt = DisplayControl(0x1000 | 0x0040 | 0x0100);
    // same priority: the object is in front
    s.sprite(0, 0x0000, 0x0004, 0x1001);
    let line = s.next_line();
    assert_eq!(&line[3..8], &[0x0055, 0x0101, 0x0102, 0x0103, 0x0055]);
    // the object behind the background
    let mut t = object_scene();
    t.palette = BoxedMemory::new(s.palette.mem.clone());
    t.vram = BoxedMemory::new(s.vram.mem.clone());
    t.gpu.bg[0].bgcnt = BgControl(8 << 8);
    t.gpu.dispcnt = DisplayControl(0x1000 | 0x0040 | 0x0100);
    t.sprite(0, 0x0000, 0x0004, 0x1401);
    assert!(t.next_line().iter().all(|c| *c == 0x0055));
    // of two objects the one of the lower priority number is in front, then the first
    let mut s = object_scene();
    s.sprite(5, 0x0000, 0x0004, 0x1401);
    s.sprite(9, 0x0000, 0x0005, 0x1001);
    s.sprite(10, 0x0000, 0x0006, 0x1001);
    assert_eq!(&s.next_line()[4..9], &[0x0101, 0x0101, 0x0102, 0x0103, 0x0103]);
    assert_eq!(s.gpu.obj_priority[4], 1);
    assert_eq!(s.gpu.obj_priority[5], 0);
}

#[test]
fn half_transparent_objects_and_the_object_window() {
    // a half-transparent object is blended with the backdrop
    let mut s = object_scene();
    s.sprite(0, 0x0400, 0x0004, 0x1001);
    s.gpu.bldcnt = 1 << 13;
    s.gpu.bldalpha = 0x1000;
    let line = s.next_line();
    assert_eq!(line[4], BLUE);
    assert!(s.gpu.obj_semi[4]);
    assert!(!s.gpu.obj_semi[0]);
    s.gpu.bldalpha = 0x0010;
    assert_eq!(s.next_line()[3], BLUE);
    // an object in window mode is not drawn; it opens the object window
    let mut s = Scene::bitmap();
    s.vram.write_16(0x1_0000 + 32 * 512, 0x0011);
    s.gpu.dispcnt = DisplayControl(3 | 0x0400 | 0x1000 | 0x0040 | 0x8000);
    s.sprite(0, 0x0800, 0x0004, 0x0200);
    s.gpu.winout = 0x0400;
    let line = s.next_line();
    for x in 0..240 {
        assert_eq!(line[x], if x == 4 || x == 5 { RED } else { BLUE }, "pixel {x}");
    }
    assert!(s.gpu.obj_window[4]);
    assert!(!s.gpu.obj_window[6]);
    assert_eq!(s.gpu.obj_line[4], TRANSPARENT);
}

#[test]
fn object_pixels() {
    let s = object_scene();
    let pixel = |a0: u16, a1: u16, a2: u16, x: u32, y: u32| {
        read_sprite_pixel(&s.palette, &s.vram, &s.oam, true, false, a0, a1, a2, x, y)
    };
    assert_eq!(pixel(0, 0, 0x1001, 0, 0), 0x0101);
    assert_eq!(pixel(0, 0, 0x1001, 3, 0), TRANSPARENT);
    assert_eq!(pixel(0, 0, 0x1001, 8, 0), TRANSPARENT);
    assert_eq!(pixel(0, 0, 0x1001, 0, 8), TRANSPARENT);
    assert_eq!(pixel(0, 0, 0x1001, 0, 7), 0x0104);
    assert_eq!(pixel(0, 0, 0x0001, 0, 0), 0);
    let mut t = object_scene();
    t.sprite(3, 0x0000, 0x0000, 0x1801);
    let sample = object_sample(&t.palette, &t.vram, &t.oam, true, true, true, false, 1, 0);
    assert_eq!((sample.color, sample.priority, sample.semi, sample.window), (0x0102, 2, false, false));
    let sample = object_sample(&t.palette, &t.vram, &t.oam, false, true, true, false, 1, 0);
    assert_eq!((sample.color, sample.priority, sample.semi, sample.window), (TRANSPARENT, 0, false, false));
}

/// The object scene with the weights of group 0 set: they lie in the fourth
/// halfword of the objects 0 to 3.
fn turned_scene(pa: u16, pb: u16, pc: u16, pd: u16) -> Scene {
    let mut s = object_scene();
    s.oam.write_16(6, pa);
    s.oam.write_16(14, pb);
    s.oam.write_16(22, pc);
    s.oam.write_16(30, pd);
    s
}

#[test]
fn an_object_that_is_neither_turned_nor_scaled_looks_as_before() {
    let mut s = turned_scene(0x100, 0, 0, 0x100);
    s.sprite(0, 0x0100, 0x0004, 0x1001);
    let line = s.next_line();
    assert_eq!(&line[3..9], &[BLUE, 0x0101, 0x0102, 0x0103, BLUE, BLUE]);
    for _ in 1..7 {
        assert!(s.next_line().iter().all(|c| *c == BLUE));
    }
    assert_eq!(&s.next_line()[3..6], &[BLUE, 0x0104, BLUE]);
    // in a box of twice the size the picture lies in the middle
    let mut s = turned_scene(0x100, 0, 0, 0x100);
    s.sprite(0, 0x0300, 0x0004, 0x1001);
    for _ in 0..4 {
        assert!(s.next_line().iter().all(|c| *c == BLUE));
    }
    assert_eq!(&s.next_line()[7..13], &[BLUE, 0x0101, 0x0102, 0x0103, BLUE, BLUE]);
}

#[test]
fn an_object_is_scaled_and_mirrored_by_its_weights() {
    // twice as large: weights of one half
    let mut s = turned_scene(0x80, 0, 0, 0x80);
    s.sprite(0, 0x0300, 0x0000, 0x1001);
    let line = s.next_line();
    assert_eq!(&line[0..8], &[0x0101, 0x0101, 0x0102, 0x0102, 0x0103, 0x0103, BLUE, BLUE]);
    assert_eq!(&s.next_line()[0..8], &line[0..8]);
    assert!(s.next_line().iter().all(|c| *c == BLUE));
    // mirrored left to right: a weight of minus one
    let mut s = turned_scene(0xff00, 0, 0, 0x100);
    s.sprite(0, 0x0100, 0x0000, 0x1001);
    // the distance -4 from the middle shows the place 4 + 4 of the picture, which lies outside
    assert_eq!(&s.next_line()[0..9], &[BLUE, BLUE, BLUE, BLUE, BLUE, BLUE, 0x0103, 0x0102, BLUE]);
    // rows and columns change places: the top row of the picture runs down the box
    let mut s = turned_scene(0, 0x100, 0x100, 0);
    s.sprite(0, 0x0100, 0x0000, 0x1001);
    let column: Vec<u16> = (0..8).map(|_| s.next_line()[0]).collect();
    assert_eq!(&column[0..4], &[0x0101, 0x0102, 0x0103, BLUE]);
    // another group of weights
    let mut s = turned_scene(0, 0, 0, 0);
    s.oam.write_16(32 * 3 + 6, 0x100);
    s.oam.write_16(32 * 3 + 30, 0x100);
    s.sprite(0, 0x0100, 0x0004 | (3 << 9), 0x1001);
    assert_eq!(&s.next_line()[3..9], &[BLUE, 0x0101, 0x0102, 0x0103, BLUE, BLUE]);
}

/// A scene in mode 2 with background 2 of 128 by 128 pixels, neither turned
/// nor scaled, over a blue backdrop. Tile 1 shows the colours 5 and 6 at the
/// left of its first row and 6 at the left of its second; the map shows it
/// in the top left corner.
fn turned_background() -> Scene {
    let mut s = Scene::empty();
    s.palette.write_16(0, BLUE);
    s.palette.write_16(2 * 5, 0x0505);
    s.palette.write_16(2 * 6, 0x0606);
    s.palette.write_16(2 * 7, 0x0707);
    s.vram.write_8(64, 5);
    s.vram.write_8(65, 6);
    s.vram.write_8(64 + 8, 6);
    s.vram.write_8(0x4000, 1);
    s.gpu.dispcnt = DisplayControl(2 | 0x0400);
    s.gpu.bg[2].bgcnt = BgControl(8 << 8);
    s.gpu.affine[0] = 0x100;
    s.gpu.affine[3] = 0x100;
    s
}

#[test]
fn a_rotated_background_shows_its_map() {
    let mut s = turned_background();
    assert_eq!(&s.next_line()[0..3], &[0x0505, 0x0606, BLUE]);
    // the reference point has moved down by one scanline
    assert_eq!(s.gpu.affine_ref, [0, 0x100, 0, 0]);
    assert_eq!(&s.next_line()[0..3], &[0x0606, BLUE, BLUE]);
    assert!(s.next_line().iter().all(|c| *c == BLUE));
    // background 3 in mode 2, background 2 in mode 1
    let mut s = turned_background();
    s.gpu.bg[3].bgcnt = BgControl(8 << 8);
    s.gpu.affine[8] = 0x100;
    s.gpu.affine[11] = 0x100;
    s.gpu.dispcnt = DisplayControl(2 | 0x0800);
    assert_eq!(&s.next_line()[0..3], &[0x0505, 0x0606, BLUE]);
    assert_eq!(s.gpu.affine_ref, [0, 0x100, 0, 0x100]);
    let mut s = turned_background();
    s.gpu.dispcnt = DisplayControl(1 | 0x0400);
    assert_eq!(&s.next_line()[0..3], &[0x0505, 0x0606, BLUE]);
    // in mode 0 the same registers make a text background
    let mut s = turned_background();
    s.gpu.dispcnt = DisplayControl(0x0400);
    assert!(s.next_line().iter().all(|c| *c == BLUE));
}

#[test]
fn a_rotated_background_is_scaled_and_moved() {
    // twice as wide
    let mut s = turned_background();
    s.gpu.affine[0] = 0x80;
    assert_eq!(&s.next_line()[0..5], &[0x0505, 0x0505, 0x0606, 0x0606, BLUE]);
    // moved by one pixel to the left
    let mut s = turned_background();
    s.gpu.affine_ref[0] = 0x100;
    assert_eq!(&s.next_line()[0..2], &[0x0606, BLUE]);
    // moved by one pixel to the right: outside the picture nothing shows
    let mut s = turned_background();
    s.gpu.affine_ref[0] = 0x0fff_ff00;
    assert_eq!(&s.next_line()[0..4], &[BLUE, 0x0505, 0x0606, BLUE]);
    // unless the picture repeats
    let mut s = turned_background();
    s.vram.write_8(0x4000 + 15, 2);
    s.vram.write_8(128 + 7, 7);
    s.gpu.bg[2].bgcnt = BgControl((8 << 8) | 0x2000);
    s.gpu.affine_ref[0] = 0x0fff_ff00;
    let line = s.next_line();
    assert_eq!(&line[0..4], &[0x0707, 0x0505, 0x0606, BLUE]);
    assert_eq!(line[128], 0x0707);
    assert_eq!(line[129], 0x0505);
    // a larger map: 256 pixels, 32 tiles in a row
    let mut s = turned_background();
    s.gpu.bg[2].bgcnt = BgControl((8 << 8) | 0x4000);
    s.vram.write_8(0x4000 + 32, 1);
    for _ in 0..8 {
        s.next_line();
    }
    assert_eq!(&s.next_line()[0..3], &[0x0505, 0x0606, BLUE]);
    // sheared: each pixel to the right goes one scanline down
    let mut s = turned_background();
    s.gpu.affine[2] = 0x100;
    assert_eq!(&s.next_line()[0..3], &[0x0505, BLUE, BLUE]);
}

#[test]
fn reference_points_follow_their_registers() {
    let mut bus = SysBus::new(IoDevices::new(), Vec::new(), Cartridge::new(Vec::new()));
    bus.write_32(0x0400_0028, 0x0123_4567);
    assert_eq!(bus.io.gpu.affine[4], 0x4567);
    assert_eq!(bus.io.gpu.affine[5], 0x0123);
    assert_eq!(bus.io.gpu.affine_ref[0], 0x0123_4567);
    bus.write_16(0x0400_002e, 0x0fff);
    assert_eq!(bus.io.gpu.affine_ref[1], 0x0fff_0000);
    bus.write_16(0x0400_003c, 0xff00);
    assert_eq!(bus.io.gpu.affine_ref, [0x0123_4567, 0x0fff_0000, 0, 0xff00]);
    // a write to a step leaves the reference points
    bus.write_16(0x0400_0022, 0x0100);
    bus.write_16(0x0400_0036, 0xff00);
    assert_eq!(bus.io.gpu.affine_ref, [0x0123_4567, 0x0fff_0000, 0, 0xff00]);
    // each scanline moves them by PB and PD, cut to 28 bits
    let gpu = &mut bus.io.gpu;
    gpu.step(960, &bus.palette_ram, &bus.vram, &bus.oam);
    assert_eq!(gpu.affine_ref, [0x0123_4667, 0x0fff_0000, 0, 0xfe00]);
    gpu.affine_ref[3] = 0x80;
    gpu.step(1232, &bus.palette_ram, &bus.vram, &bus.oam);
    assert_eq!(gpu.affine_ref, [0x0123_4767, 0x0fff_0000, 0, 0x0fff_ff80]);
    // at scanline 0 they start again from their registers
    gpu.step(1232 * 226, &bus.palette_ram, &bus.vram, &bus.oam);
    assert_eq!(gpu.vcount, 227);
    assert_eq!(gpu.affine_ref[0], 0x0123_4567 + 160 * 0x100);
    gpu.step(272, &bus.palette_ram, &bus.vram, &bus.oam);
    assert_eq!((gpu.vcount, gpu.cycles), (0, 0));
    assert_eq!(gpu.affine_ref, [0x0123_4567, 0x0fff_0000, 0, 0xff00]);
}
