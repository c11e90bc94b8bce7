use espboot::chip::{esp32, esp32c6, esp32s3};
use espboot::image::EspImageSegmentHeader;
use espboot::placement::{map_blocks, place_segment, Mapping, Placement, MAP_PAGE_KB};

#[test]
fn mapping_scenario_two_blocks() {
    let m = esp32s3::address_map();
    let seg = EspImageSegmentHeader { load_addr: 0x4200_0020, data_len: 70000 };
    let p = place_segment(&m, 0x0001_0020, seg);
    assert_eq!(
        p,
        Placement::MapInstruction(Mapping { vaddr: 0x4200_0000, paddr: 0x0001_0000, blocks: 2 })
    );
}

#[test]
fn alignment_rounds_independently() {
    let b = map_blocks(0x3C01_2345, 0x0003_4567, 0x100);
    assert_eq!(b, Mapping { vaddr: 0x3C01_0000, paddr: 0x0003_0000, blocks: 1 });
    // the offset inside the first block is counted: 0xFF00 + 0x200 spills over
    let b = map_blocks(0x3C00_FF00, 0x0002_0000, 0x200);
    assert_eq!(b.blocks, 2);
    let b = map_blocks(0x3C00_0000, 0x0002_0000, 0x10000);
    assert_eq!(b.blocks, 1);
    let b = map_blocks(0x3C00_0000, 0x0002_0000, 0x10001);
    assert_eq!(b.blocks, 2);
    let b = map_blocks(0x3C00_0000, 0x0002_0000, 0);
    assert_eq!(b.blocks, 0);
}

#[test]
fn alignment_law_samples() {
    for &load in &[0u32, 1, 0xFFFF, 0x1_0000, 0x3C01_2345, 0xFFFF_FFFF] {
        for &len in &[0u32, 1, 65535, 65536, 70000, 0xFFFF_FFFF] {
            let b = map_blocks(load, 0x0001_0018, len);
            assert_eq!(b.vaddr % 65536, 0);
            assert_eq!(b.paddr % 65536, 0);
            let need = (load % 65536) as u64 + len as u64;
            assert!(b.blocks as u64 * 65536 >= need);
            assert!(b.blocks == 0 || (b.blocks as u64 - 1) * 65536 < need);
        }
    }
    // largest length with the largest offset does not overflow
    assert_eq!(map_blocks(0xFFFF_FFFF, 0, 0xFFFF_FFFF).blocks, 65537);
}

#[test]
fn data_bus_window_dispatch() {
    let m = esp32s3::address_map();
    let seg = EspImageSegmentHeader { load_addr: 0x3C00_0020, data_len: 0x1000 };
    assert!(matches!(place_segment(&m, 0x0001_0020, seg), Placement::MapData(_)));
    let seg = EspImageSegmentHeader { load_addr: 0x3C7F_FFF0, data_len: 0x10 };
    assert!(matches!(place_segment(&m, 0x0001_0020, seg), Placement::MapData(_)));
    let seg = EspImageSegmentHeader { load_addr: 0x4200_0000, data_len: 0x10 };
    assert!(matches!(place_segment(&m, 0x0001_0020, seg), Placement::MapInstruction(_)));
    let e = esp32::address_map();
    let seg = EspImageSegmentHeader { load_addr: 0x3F40_1000, data_len: 0x10 };
    assert!(matches!(place_segment(&e, 0x0001_0020, seg), Placement::MapData(_)));
    let seg = EspImageSegmentHeader { load_addr: 0x400D_0018, data_len: 0x10 };
    assert!(matches!(place_segment(&e, 0x0001_0020, seg), Placement::MapInstruction(_)));
    let c6 = esp32c6::address_map();
    let seg = EspImageSegmentHeader { load_addr: 0x4200_0020, data_len: 0x10 };
    assert!(matches!(place_segment(&c6, 0x0001_0020, seg), Placement::MapData(_)));
    assert_eq!(MAP_PAGE_KB, 64);
}

#[test]
fn skip_and_copy() {
    let m = esp32s3::address_map();
    let seg = EspImageSegmentHeader { load_addr: 0, data_len: 0x1234 };
    assert_eq!(place_segment(&m, 0x0001_0020, seg), Placement::Skip);
    let seg = EspImageSegmentHeader { load_addr: 0x3FC8_8000, data_len: 256 };
    assert_eq!(
        place_segment(&m, 0x0001_0020, seg),
        Placement::Copy { src: 0x0001_0020, dst: 0x3FC8_8000, len: 256 }
    );
}
