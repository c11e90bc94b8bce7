use espboot::boot::{BootAction, BootEvent, BootSequencer, Phase, IMAGE_OFFSET};
use espboot::chip::esp32s3;
use espboot::image::{
    encode_header, encode_segment_header, EspImageHeader, EspImageSegmentHeader,
};
use espboot::placement::{Mapping, Placement};

fn header_bytes(segment_count: u8, entry_addr: u32) -> Vec<u8> {
    encode_header(&EspImageHeader {
        magic: 0xE9,
        segment_count,
        spi_mode: 2,
        spi_speed_and_size: 0x20,
        entry_addr,
        wp_pin: 0xEE,
        spi_pin_drv: [0, 0, 0],
        chip_id: 9,
        min_chip_rev: 0,
        min_chip_rev_full: 0,
        max_chip_rev_full: 99,
        reserved: [0, 0, 0, 0],
        hash_appended: 1,
    })
}

fn seg_bytes(load_addr: u32, data_len: u32) -> Vec<u8> {
    encode_segment_header(&EspImageSegmentHeader { load_addr, data_len })
}

fn step(s: &mut BootSequencer, e: BootEvent) -> BootAction {
    assert!(s.expects(&e));
    s.step(e)
}

/// Runs the start of the pass up to the request for the image header.
fn started() -> BootSequencer {
    let mut s = BootSequencer::new(esp32s3::address_map(), IMAGE_OFFSET);
    assert_eq!(s.phase, Phase::Idle);
    assert_eq!(step(&mut s, BootEvent::Start), BootAction::InitFlash);
    assert_eq!(step(&mut s, BootEvent::FlashConfigured), BootAction::InitMmu);
    assert_eq!(
        step(&mut s, BootEvent::CacheSuspended),
        BootAction::ReadFlash { addr: 0x10000, len: 24 }
    );
    s
}

#[test]
fn end_to_end_skip_then_copy() {
    let mut s = started();
    let mut reads = vec![(0x10000u32, 24u32)];
    let a = step(&mut s, BootEvent::Data(header_bytes(2, 0x4037_8abc)));
    assert_eq!(a, BootAction::ReadFlash { addr: 0x10018, len: 8 });
    reads.push((0x10018, 8));
    // segment 0: load address 0, skipped
    let a = step(&mut s, BootEvent::Data(seg_bytes(0, 0x40)));
    assert_eq!(a, BootAction::ReadFlash { addr: 0x10018 + 8 + 0x40, len: 8 });
    reads.push((0x10060, 8));
    // segment 1: into RAM, 256 bytes
    let a = step(&mut s, BootEvent::Data(seg_bytes(0x3FC8_8000, 256)));
    assert_eq!(
        a,
        BootAction::Place(Placement::Copy { src: 0x10068, dst: 0x3FC8_8000, len: 256 })
    );
    assert_eq!(step(&mut s, BootEvent::Placed(0)), BootAction::ResumeMmu);
    assert_eq!(step(&mut s, BootEvent::CacheResumed), BootAction::Jump { entry: 0x4037_8abc });
    assert_eq!(reads, vec![(0x10000, 24), (0x10018, 8), (0x10060, 8)]);
    assert_eq!(s.phase, Phase::Jumped);
    assert_eq!(s.cursor, 0x10000 + 24 + (8 + 0x40) + (8 + 256));
    assert!(!s.expects(&BootEvent::CacheResumed));
    assert!(!s.expects(&BootEvent::Start));
}

#[test]
fn no_segments_resumes_at_once() {
    let mut s = started();
    let a = step(&mut s, BootEvent::Data(header_bytes(0, 0x4200_0000)));
    assert_eq!(a, BootAction::ResumeMmu);
    assert_eq!(step(&mut s, BootEvent::CacheResumed), BootAction::Jump { entry: 0x4200_0000 });
}

#[test]
fn mapping_failure_does_not_stop_boot() {
    let mut s = started();
    step(&mut s, BootEvent::Data(header_bytes(2, 0x4200_1000)));
    let a = step(&mut s, BootEvent::Data(seg_bytes(0x4200_0020, 70000)));
    assert_eq!(
        a,
        BootAction::Place(Placement::MapInstruction(Mapping {
            vaddr: 0x4200_0000,
            paddr: 0x10000,
            blocks: 2,
        }))
    );
    let a = step(&mut s, BootEvent::Placed(4));
    assert_eq!(a, BootAction::ReadFlash { addr: 0x10018 + 8 + 70000, len: 8 });
    let a = step(&mut s, BootEvent::Data(seg_bytes(0x3C00_0020, 0x100)));
    let data = 0x10018 + 8 + 70000 + 8;
    assert_eq!(
        a,
        BootAction::Place(Placement::MapData(Mapping {
            vaddr: 0x3C00_0000,
            paddr: data - data % 0x10000,
            blocks: 1,
        }))
    );
    assert_eq!(step(&mut s, BootEvent::Placed(0)), BootAction::ResumeMmu);
}

#[test]
fn cursor_counts_every_segment() {
    let mut s = started();
    step(&mut s, BootEvent::Data(header_bytes(4, 0x4200_1000)));
    let segs = [(0u32, 0x10u32), (0x3FC8_8000, 0x20), (0x4200_0000, 0x3_0000), (0, 0)];
    let mut expected: u32 = 0x10000 + 24;
    for (i, &(load, len)) in segs.iter().enumerate() {
        let a = step(&mut s, BootEvent::Data(seg_bytes(load, len)));
        expected += 8 + len;
        assert_eq!(s.cursor, expected);
        assert_eq!(s.next_segment as usize, i + 1);
        if let BootAction::Place(_) = a {
            step(&mut s, BootEvent::Placed(0));
        }
    }
    assert_eq!(s.phase, Phase::Resuming);
    assert_eq!(s.cursor, 0x10000 + 24 + 8 * 4 + 0x10 + 0x20 + 0x3_0000);
}

#[test]
fn cursor_wraps_at_32_bits() {
    let mut s = started();
    step(&mut s, BootEvent::Data(header_bytes(2, 0)));
    step(&mut s, BootEvent::Data(seg_bytes(0, 0xFFFF_FFF0)));
    assert_eq!(s.cursor, (0x10018u64 + 8 + 0xFFFF_FFF0 - 0x1_0000_0000) as u32);
}

#[test]
fn wrong_report_is_refused() {
    let mut s = started();
    assert!(!s.expects(&BootEvent::Data(vec![0; 23])));
    assert!(s.expects(&BootEvent::Data(vec![0; 24])));
    assert!(!s.expects(&BootEvent::Placed(0)));
    step(&mut s, BootEvent::Data(header_bytes(1, 0)));
    assert!(!s.expects(&BootEvent::Data(vec![0; 7])));
    assert!(s.expects(&BootEvent::Data(vec![0; 8])));
}
