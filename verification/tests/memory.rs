use rustboyadvance_core::bus::Bus;
use rustboyadvance_core::cartridge::Cartridge;
use rustboyadvance_core::gpu::timing::GpuState;
use rustboyadvance_core::iodev::IoDevices;
use rustboyadvance_core::sysbus::BoxedMemory;
use rustboyadvance_core::sysbus::DummyBus;
use rustboyadvance_core::sysbus::MemoryAccess;
use rustboyadvance_core::sysbus::MemoryAccessType;
use rustboyadvance_core::sysbus::MemoryAccessType::NonSeq;
use rustboyadvance_core::sysbus::MemoryAccessType::Sequential;
use rustboyadvance_core::sysbus::MemoryAccessWidth;
use rustboyadvance_core::sysbus::MemoryAccessWidth::MemoryAccess16;
use rustboyadvance_core::sysbus::MemoryAccessWidth::MemoryAccess32;
use rustboyadvance_core::sysbus::MemoryAccessWidth::MemoryAccess8;
use rustboyadvance_core::sysbus::Region;
use rustboyadvance_core::sysbus::SysBus;

fn fresh_bus() -> SysBus {
    SysBus::new(IoDevices::new(), Vec::new(), Cartridge::new(Vec::new()))
}

#[test]
fn boxed_memory_is_little_endian() {
    let m = BoxedMemory::new(vec![0x11, 0x22, 0x33, 0x44, 0x55, 0x66, 0x77, 0x88]);
    assert_eq!(m.read_8(0), 0x11);
    assert_eq!(m.read_8(7), 0x88);
    assert_eq!(m.read_16(0), 0x2211);
    assert_eq!(m.read_16(2), 0x4433);
    assert_eq!(m.read_16(1), 0x3322);
    assert_eq!(m.read_32(0), 0x4433_2211);
    assert_eq!(m.read_32(4), 0x8877_6655);
    assert_eq!(m.read_32(1), 0x5544_3322);
}

#[test]
fn boxed_memory_writes_lowest_byte_first() {
    let mut m = BoxedMemory::new(vec![0; 8]);
    m.write_32(0, 0xdead_beef);
    assert_eq!(m.mem, vec![0xef, 0xbe, 0xad, 0xde, 0, 0, 0, 0]);
    m.write_16(4, 0xcafe);
    assert_eq!(m.mem, vec![0xef, 0xbe, 0xad, 0xde, 0xfe, 0xca, 0, 0]);
    m.write_8(7, 0x99);
    assert_eq!(m.mem, vec![0xef, 0xbe, 0xad, 0xde, 0xfe, 0xca, 0, 0x99]);
    assert_eq!(m.read_32(0), 0xdead_beef);
    assert_eq!(m.read_16(4), 0xcafe);
}

#[test]
fn boxed_memory_folds_addresses_into_the_block() {
    let mut m = BoxedMemory::new(vec![1, 2, 3, 4, 5, 6, 7, 8]);
    assert_eq!(m.read_8(8), 1);
    assert_eq!(m.read_8(0xffff_ffff), 8);
    assert_eq!(m.read_16(8 + 2), 0x0403);
    assert_eq!(m.read_32(1024 + 4), 0x0807_0605);
    // an access that runs over the end goes on at the start
    assert_eq!(m.read_16(7), 0x0108);
    assert_eq!(m.read_32(6), 0x0201_0807);
    assert_eq!(m.read_32(0xffff_ffff), 0x0302_0108);
    m.write_8(9, 0xaa);
    assert_eq!(m.mem[1], 0xaa);
    m.write_16(15, 0xbbcc);
    assert_eq!(m.mem[7], 0xcc);
    assert_eq!(m.mem[0], 0xbb);
    m.write_32(0xffff_fffe, 0x1122_3344);
    assert_eq!(m.mem, vec![0x22, 0x11, 3, 4, 5, 6, 0x44, 0x33]);
}

#[test]
fn boxed_memory_of_odd_length_folds_by_remainder() {
    let mut m = BoxedMemory::new(vec![10, 20, 30]);
    assert_eq!(m.read_8(3), 10);
    assert_eq!(m.read_8(5), 30);
    assert_eq!(m.read_16(2), 10 * 256 + 30);
    assert_eq!(m.read_32(1), 20 + (30 << 8) + (10 << 16) + (20 << 24));
    m.write_32(2, 0x0403_0201);
    assert_eq!(m.mem, vec![2, 3, 4]);
}

#[test]
fn empty_boxed_memory_reads_zero_and_drops_writes() {
    let mut m = BoxedMemory::new(Vec::new());
    m.write_8(0, 1);
    m.write_16(0, 1);
    m.write_32(0, 1);
    assert_eq!(m.read_8(0), 0);
    assert_eq!(m.read_16(100), 0);
    assert_eq!(m.read_32(0xffff_ffff), 0);
    assert!(m.mem.is_empty());
    assert_eq!(BoxedMemory::zeroed(5).mem, vec![0; 5]);
}

#[test]
fn dummy_bus_reads_zero() {
    let mut d = DummyBus([0xff; 4]);
    d.write_8(0, 7);
    d.write_16(0, 7);
    d.write_32(0, 7);
    assert_eq!(d.read_8(0), 0);
    assert_eq!(d.read_16(2), 0);
    assert_eq!(d.read_32(0), 0);
}

#[test]
fn cartridge_reads_zero_past_its_end_and_takes_no_writes() {
    let mut c = Cartridge::new(vec![0x10, 0x20, 0x30, 0x40, 0x50]);
    assert_eq!(c.read_8(0), 0x10);
    assert_eq!(c.read_8(4), 0x50);
    assert_eq!(c.read_8(5), 0);
    assert_eq!(c.read_16(0), 0x2010);
    assert_eq!(c.read_16(4), 0x0050);
    assert_eq!(c.read_16(6), 0);
    assert_eq!(c.read_32(0), 0x4030_2010);
    assert_eq!(c.read_32(1), 0x5040_3020);
    assert_eq!(c.read_32(2), 0x0050_4030);
    assert_eq!(c.read_32(4), 0x0000_0050);
    assert_eq!(c.read_32(0xffff_fffc), 0);
    c.write_8(0, 0xff);
    c.write_16(0, 0xffff);
    c.write_32(0, 0xffff_ffff);
    assert_eq!(c.bytes, vec![0x10, 0x20, 0x30, 0x40, 0x50]);
}

#[test]
fn cartridge_header_fields() {
    let mut rom = vec![0u8; 0xc0];
    rom[0xa0..0xac].copy_from_slice(b"HELLO WORLD\0");
    rom[0xac..0xb0].copy_from_slice(b"AXVE");
    let mut sum: u8 = 0;
    for b in &rom[0xa0..0xbd] {
        sum = sum.wrapping_sub(*b);
    }
    rom[0xbd] = sum.wrapping_sub(0x19);
    let c = Cartridge::new(rom.clone());
    assert_eq!(c.title(), b"HELLO WORLD\0".to_vec());
    assert_eq!(c.game_code(), b"AXVE".to_vec());
    assert!(c.checksum_matches());
    rom[0xa0] ^= 1;
    assert!(!Cartridge::new(rom).checksum_matches());
    let short = Cartridge::new(vec![1, 2, 3]);
    assert_eq!(short.title(), vec![0; 12]);
    assert_eq!(short.game_code(), vec![0; 4]);
    assert_eq!(short.header_bytes(0, 5), vec![1, 2, 3, 0, 0]);
    // an all-zero header sums to zero, less 0x19
    assert!(!short.checksum_matches());
    let mut zero = vec![0u8; 0xc0];
    zero[0xbd] = 0xe7;
    assert!(Cartridge::new(zero).checksum_matches());
}

#[test]
fn memory_map_of_every_page() {
    let bus = fresh_bus();
    assert_eq!(bus.map(0x0000_0000), (Region::Bios, 0));
    assert_eq!(bus.map(0x0000_3ffc), (Region::Bios, 0x3ffc));
    assert_eq!(bus.map(0x0000_4000), (Region::Unmapped, 0x4000));
    assert_eq!(bus.map(0x0100_0000), (Region::Unmapped, 0));
    assert_eq!(bus.map(0x0200_0000), (Region::Ewram, 0));
    assert_eq!(bus.map(0x0203_ffff), (Region::Ewram, 0x3_ffff));
    assert_eq!(bus.map(0x0204_0004), (Region::Ewram, 4));
    assert_eq!(bus.map(0x02ff_fffe), (Region::Ewram, 0x3_fffe));
    assert_eq!(bus.map(0x0300_7f00), (Region::Iwram, 0x7f00));
    assert_eq!(bus.map(0x0300_8000), (Region::Iwram, 0));
    assert_eq!(bus.map(0x03ff_ffff), (Region::Iwram, 0x7fff));
    assert_eq!(bus.map(0x0400_0000), (Region::Io, 0));
    assert_eq!(bus.map(0x0400_0208), (Region::Io, 0x208));
    assert_eq!(bus.map(0x0400_0804), (Region::Io, 4));
    assert_eq!(bus.map(0x0400_8000), (Region::Io, 0x800));
    assert_eq!(bus.map(0x0401_8000), (Region::Io, 0x800));
    assert_eq!(bus.map(0x0400_8002), (Region::Io, 2));
    assert_eq!(bus.map(0x0500_0000), (Region::Palette, 0));
    assert_eq!(bus.map(0x0500_0400), (Region::Palette, 0));
    assert_eq!(bus.map(0x0500_03fe), (Region::Palette, 0x3fe));
    assert_eq!(bus.map(0x0600_0000), (Region::Vram, 0));
    assert_eq!(bus.map(0x0601_7fff), (Region::Vram, 0x1_7fff));
    assert_eq!(bus.map(0x0601_8000), (Region::Vram, 0x1_8000));
    assert_eq!(bus.map(0x0601_8001), (Region::Vram, 0x1_0001));
    assert_eq!(bus.map(0x0601_ffff), (Region::Vram, 0x1_7fff));
    assert_eq!(bus.map(0x0602_0000), (Region::Vram, 0));
    assert_eq!(bus.map(0x0700_0000), (Region::Oam, 0));
    assert_eq!(bus.map(0x0700_0401), (Region::Oam, 1));
    assert_eq!(bus.map(0x0800_0000), (Region::GamePak, 0));
    assert_eq!(bus.map(0x0812_3456), (Region::GamePak, 0x12_3456));
    assert_eq!(bus.map(0x0900_0000), (Region::GamePak, 0x100_0000));
    assert_eq!(bus.map(0x0a00_0010), (Region::GamePak, 0x10));
    assert_eq!(bus.map(0x0c00_0010), (Region::GamePak, 0x10));
    assert_eq!(bus.map(0x0b00_0010), (Region::Unmapped, 0x10));
    assert_eq!(bus.map(0x0d00_0010), (Region::Unmapped, 0x10));
    assert_eq!(bus.map(0x0e00_0000), (Region::Unmapped, 0));
    assert_eq!(bus.map(0xffff_ffff), (Region::Unmapped, 0xff_ffff));
}

#[test]
fn writes_are_mapped_as_reads_but_for_the_bios() {
    let bus = fresh_bus();
    assert_eq!(bus.map_mut(0x0000_0000), (Region::Unmapped, 0));
    assert_eq!(bus.map_mut(0x0000_3ffc), (Region::Unmapped, 0x3ffc));
    assert_eq!(bus.map_mut(0x0000_4000), (Region::Unmapped, 0x4000));
    for addr in [
        0x0200_0000u32,
        0x0204_0004,
        0x0300_8000,
        0x0400_8000,
        0x0400_0804,
        0x0500_0400,
        0x0601_8000,
        0x0601_8001,
        0x0700_0401,
        0x0812_3456,
        0x0a00_0010,
        0x0b00_0010,
        0xffff_ffff,
    ] {
        assert_eq!(bus.map_mut(addr), bus.map(addr));
    }
}

#[test]
fn bios_is_read_only_and_padded_to_16_kib() {
    let mut bus = SysBus::new(
        IoDevices::new(),
        vec![0x78, 0x56, 0x34, 0x12],
        Cartridge::new(Vec::new()),
    );
    assert_eq!(bus.bios.mem.len(), 0x4000);
    assert_eq!(bus.read_32(0), 0x1234_5678);
    assert_eq!(bus.read_32(4), 0);
    bus.write_32(0, 0xffff_ffff);
    bus.write_8(1, 0);
    assert_eq!(bus.read_32(0), 0x1234_5678);
    let long = SysBus::new(IoDevices::new(), vec![0xab; 0x5000], Cartridge::new(Vec::new()));
    assert_eq!(long.bios.mem.len(), 0x4000);
    assert_eq!(long.read_8(0x3fff), 0xab);
}

#[test]
fn ram_has_its_sizes_and_starts_zeroed() {
    let bus = fresh_bus();
    assert_eq!(bus.onboard_work_ram.mem.len(), 256 * 1024);
    assert_eq!(bus.internal_work_ram.mem.len(), 32 * 1024);
    assert_eq!(bus.palette_ram.mem.len(), 1024);
    assert_eq!(bus.vram.mem.len(), 128 * 1024);
    assert_eq!(bus.oam.mem.len(), 1024);
    assert!(bus.onboard_work_ram.mem.iter().all(|b| *b == 0));
    assert!(bus.vram.mem.iter().all(|b| *b == 0));
}

#[test]
fn byte_written_to_ram_reads_back() {
    let mut bus = fresh_bus();
    for (i, addr) in [
        0x0200_0000u32,
        0x0203_ffff,
        0x02ab_cdef,
        0x0300_0001,
        0x0300_7fff,
        0x0500_0003,
        0x0600_0000,
        0x0601_8000,
        0x0601_ffff,
        0x0700_03ff,
    ]
    .iter()
    .enumerate()
    {
        let v = 0x80u8 + i as u8;
        bus.write_8(*addr, v);
        assert_eq!(bus.read_8(*addr), v);
    }
}

#[test]
fn halfword_written_to_ram_reads_back() {
    let mut bus = fresh_bus();
    for addr in [0x0200_0000u32, 0x0203_fffe, 0x0300_7ffe, 0x0500_0000, 0x0601_7ffe, 0x0700_0010] {
        bus.write_16(addr, 0xa55a);
        assert_eq!(bus.read_16(addr), 0xa55a);
        assert_eq!(bus.read_8(addr), 0x5a);
        assert_eq!(bus.read_8(addr + 1), 0xa5);
    }
    // the lowest bit of the address is dropped
    bus.write_16(0x0200_0101, 0x1234);
    assert_eq!(bus.read_16(0x0200_0100), 0x1234);
    assert_eq!(bus.read_16(0x0200_0101), 0x1234);
}

#[test]
fn word_is_two_halfwords() {
    let mut bus = fresh_bus();
    for addr in [0x0200_0000u32, 0x0203_fffc, 0x0300_0004, 0x0500_03fc, 0x0600_0000, 0x0601_7ffc, 0x0700_0000] {
        bus.write_32(addr, 0x89ab_cdef);
        assert_eq!(bus.read_32(addr), 0x89ab_cdef);
        assert_eq!(bus.read_16(addr), 0xcdef);
        assert_eq!(bus.read_16(addr + 2), 0x89ab);
        assert_eq!(
            bus.read_32(addr),
            bus.read_16(addr) as u32 | (bus.read_16(addr + 2) as u32) << 16
        );
    }
    // the two lowest bits of the address are dropped
    bus.write_32(0x0300_0103, 0x0102_0304);
    assert_eq!(bus.read_32(0x0300_0100), 0x0102_0304);
}

#[test]
fn the_word_at_the_edge_of_the_video_mirror_is_not_two_halfwords() {
    let mut bus = fresh_bus();
    bus.write_32(0x0601_8000, 0x89ab_cdef);
    assert_eq!(bus.read_32(0x0601_8000), 0x89ab_cdef);
    assert_eq!(bus.read_16(0x0601_8000), 0xcdef);
    // two bytes on, the address is moved down by 0x8000
    assert_eq!(bus.read_16(0x0601_8002), 0);
    assert_eq!(bus.map(0x0601_8002), (Region::Vram, 0x1_0002));
}

#[test]
fn work_ram_is_mirrored_through_its_page() {
    let mut bus = fresh_bus();
    bus.write_32(0x0200_0010, 0x1111_2222);
    assert_eq!(bus.read_32(0x0204_0010), 0x1111_2222);
    assert_eq!(bus.read_32(0x02fc_0010), 0x1111_2222);
    bus.write_16(0x0300_8002, 0x3333);
    assert_eq!(bus.read_16(0x0300_0002), 0x3333);
    bus.write_8(0x0500_0401, 0x44);
    assert_eq!(bus.read_8(0x0500_0001), 0x44);
    bus.write_8(0x0700_0c00, 0x55);
    assert_eq!(bus.read_8(0x0700_0000), 0x55);
}

#[test]
fn cartridge_answers_in_its_four_pages() {
    let mut rom = vec![0u8; 0x20];
    rom[0x10..0x14].copy_from_slice(&[0xde, 0xc0, 0xad, 0x0b]);
    let mut bus = SysBus::new(IoDevices::new(), Vec::new(), Cartridge::new(rom));
    for page in [0x0800_0000u32, 0x0a00_0000, 0x0c00_0000] {
        assert_eq!(bus.read_32(page + 0x10), 0x0bad_c0de);
        assert_eq!(bus.read_16(page + 0x12), 0x0bad);
        assert_eq!(bus.read_8(page + 0x11), 0xc0);
    }
    // page 0x09 shows the second 16 MiB of the cartridge
    assert_eq!(bus.read_32(0x0900_0010), 0);
    assert_eq!(bus.read_32(0x0b00_0010), 0);
    assert_eq!(bus.read_32(0x0800_0020), 0);
    bus.write_32(0x0800_0010, 0);
    assert_eq!(bus.read_32(0x0800_0010), 0x0bad_c0de);
}

#[test]
fn unmapped_addresses_read_zero() {
    let mut bus = fresh_bus();
    for addr in [0x0100_0000u32, 0x0b00_0000, 0x0d00_0000, 0x0e00_0000, 0x1000_0000, 0xffff_fffc] {
        bus.write_32(addr, 0xffff_ffff);
        assert_eq!(bus.read_32(addr), 0);
        assert_eq!(bus.read_16(addr), 0);
        assert_eq!(bus.read_8(addr), 0);
    }
}

fn access(kind: MemoryAccessType, width: MemoryAccessWidth) -> MemoryAccess {
    MemoryAccess(kind, width)
}

#[test]
fn work_ram_and_video_memory_wait_cycles() {
    let mut bus = fresh_bus();
    for kind in [NonSeq, Sequential] {
        assert_eq!(bus.get_cycles(0x0200_0000, access(kind, MemoryAccess8)), 3);
        assert_eq!(bus.get_cycles(0x0200_0000, access(kind, MemoryAccess16)), 3);
        assert_eq!(bus.get_cycles(0x02ff_0000, access(kind, MemoryAccess32)), 6);
        for addr in [0x0000_0000u32, 0x0300_0000, 0x0400_0000, 0x0100_0000, 0x0b00_0000, 0x0e00_0000] {
            assert_eq!(bus.get_cycles(addr, access(kind, MemoryAccess8)), 0);
            assert_eq!(bus.get_cycles(addr, access(kind, MemoryAccess32)), 0);
        }
    }
    assert_eq!(bus.io.gpu.state, GpuState::HDraw);
    for addr in [0x0500_0000u32, 0x0600_0000, 0x0700_0000] {
        assert_eq!(bus.get_cycles(addr, access(NonSeq, MemoryAccess8)), 2);
        assert_eq!(bus.get_cycles(addr, access(NonSeq, MemoryAccess16)), 2);
        assert_eq!(bus.get_cycles(addr, access(Sequential, MemoryAccess32)), 3);
    }
    bus.io.gpu.state = GpuState::HBlank;
    for addr in [0x0500_0000u32, 0x0600_0000, 0x0700_0000] {
        assert_eq!(bus.get_cycles(addr, access(NonSeq, MemoryAccess8)), 1);
        assert_eq!(bus.get_cycles(addr, access(Sequential, MemoryAccess16)), 1);
        assert_eq!(bus.get_cycles(addr, access(NonSeq, MemoryAccess32)), 2);
    }
    bus.io.gpu.state = GpuState::VBlank;
    assert_eq!(bus.get_cycles(0x0600_0000, access(NonSeq, MemoryAccess32)), 2);
}

#[test]
fn cartridge_wait_cycles_follow_the_tables() {
    let first = [4usize, 3, 2, 8];
    let second = [2usize, 1];
    for (page, first_shift, second_shift) in
        [(0x0800_0000u32, 2, 4), (0x0900_0000, 2, 4), (0x0a00_0000, 5, 7), (0x0c00_0000, 8, 10)]
    {
        for f in 0..4usize {
            for s in 0..2usize {
                let mut bus = fresh_bus();
                bus.write_16(0x0400_0204, ((f << first_shift) | (s << second_shift)) as u16);
                assert_eq!(bus.get_cycles(page, access(NonSeq, MemoryAccess8)), first[f]);
                assert_eq!(bus.get_cycles(page, access(NonSeq, MemoryAccess16)), first[f]);
                assert_eq!(
                    bus.get_cycles(page, access(NonSeq, MemoryAccess32)),
                    first[f] + second[s]
                );
                assert_eq!(bus.get_cycles(page, access(Sequential, MemoryAccess8)), second[s]);
                assert_eq!(bus.get_cycles(page, access(Sequential, MemoryAccess16)), second[s]);
                assert_eq!(
                    bus.get_cycles(page, access(Sequential, MemoryAccess32)),
                    2 * second[s]
                );
            }
        }
    }
    // the windows have fields of their own
    let mut bus = fresh_bus();
    bus.write_16(0x0400_0204, 3 << 2);
    assert_eq!(bus.get_cycles(0x0800_0000, access(NonSeq, MemoryAccess8)), 8);
    assert_eq!(bus.get_cycles(0x0a00_0000, access(NonSeq, MemoryAccess8)), 4);
    assert_eq!(bus.get_cycles(0x0c00_0000, access(NonSeq, MemoryAccess8)), 4);
}

#[test]
fn accesses_have_names() {
    assert_eq!(MemoryAccessType::NonSeq.letter(), 'N');
    assert_eq!(MemoryAccessType::Sequential.letter(), 'S');
    let a = MemoryAccessType::NonSeq + MemoryAccessWidth::MemoryAccess32;
    assert_eq!(a, MemoryAccess(MemoryAccessType::NonSeq, MemoryAccessWidth::MemoryAccess32));
    assert_eq!(a.describe(), "N-Cycle (MemoryAccess32)");
    assert_eq!(
        MemoryAccess(MemoryAccessType::Sequential, MemoryAccessWidth::MemoryAccess8).describe(),
        "S-Cycle (MemoryAccess8)"
    );
    assert_eq!(
        MemoryAccess(MemoryAccessType::Sequential, MemoryAccessWidth::MemoryAccess16).describe(),
        "S-Cycle (MemoryAccess16)"
    );
    assert_eq!(
        MemoryAccess(MemoryAccessType::NonSeq, MemoryAccessWidth::MemoryAccess8).describe(),
        "N-Cycle (MemoryAccess8)"
    );
}

#[test]
fn region_bytes_from_an_address_on() {
    let mut bus = SysBus::new(IoDevices::new(), vec![1, 2, 3], Cartridge::new(vec![9, 8, 7, 6]));
    assert_eq!(bus.get_bytes(0x0800_0001), &[8, 7, 6]);
    assert_eq!(bus.get_bytes(0x0800_0004), &[] as &[u8]);
    assert_eq!(bus.get_bytes(0x0800_0005), &[] as &[u8]);
    assert_eq!(bus.get_bytes(0x0000_0000).len(), 0x4000);
    assert_eq!(&bus.get_bytes(0)[..4], &[1, 2, 3, 0]);
    bus.write_8(0x0500_03ff, 0x77);
    assert_eq!(bus.get_bytes(0x0500_03fe), &[0, 0x77]);
    assert_eq!(bus.get_bytes(0x0400_0000), &[] as &[u8]);
    assert_eq!(bus.get_bytes(0x0e00_0000), &[] as &[u8]);
    assert_eq!(bus.get_bytes(0x0300_7ff0).len(), 16);
}
