use vstd::prelude::*;

use crate::chip::AddressMap;
use crate::image::EspImageSegmentHeader;

verus! {

/// Page size, in KiB, of every mapping the loader installs.
pub const MAP_PAGE_KB: u32 = 64;

/// A run of 64 KiB pages to install: `blocks` pages from virtual address
/// `vaddr` onto flash from physical address `paddr`.
#[derive(Clone, Copy, Debug, PartialEq, Eq, Structural)]
pub struct Mapping {
    pub vaddr: u32,
    pub paddr: u32,
    pub blocks: u32,
}

/// What to do with one segment.
#[derive(Clone, Copy, Debug, PartialEq, Eq, Structural)]
pub enum Placement {
    /// The segment has no destination.
    Skip,
    /// Copy `len` payload bytes from flash offset `src` to RAM at `dst`.
    Copy { src: u32, dst: u32, len: u32 },
    /// Map the payload through the data bus.
    MapData(Mapping),
    /// Map the payload through the instruction bus.
    MapInstruction(Mapping),
}

pub open spec fn ceil_div(a: int, b: int) -> int {
    (a + b - 1) / b
}

/// The block-aligned mapping of `data_len` bytes stored in flash at `data_addr`
/// and wanted at `load_addr`: both addresses are rounded down to their 64 KiB
/// block, each on its own, and the offset of `load_addr` inside its block is
/// counted into the number of blocks.
pub open spec fn block_mapping(load_addr: u32, data_addr: u32, data_len: u32) -> Mapping {
    Mapping {
        vaddr: (load_addr - load_addr % 65536) as u32,
        paddr: (data_addr - data_addr % 65536) as u32,
        blocks: ceil_div(data_len + load_addr % 65536, 65536) as u32,
    }
}

/// Where the segment `seg`, whose payload starts at flash offset `data_addr`,
/// goes on a chip with address map `m`.
pub open spec fn placement(m: AddressMap, data_addr: u32, seg: EspImageSegmentHeader) -> Placement {
    if seg.load_addr == 0 {
        Placement::Skip
    } else if m.ram(seg.load_addr as int) {
        Placement::Copy { src: data_addr, dst: seg.load_addr, len: seg.data_len }
    } else {
        let b = block_mapping(seg.load_addr, data_addr, seg.data_len);
        if m.drom(b.vaddr as int) {
            Placement::MapData(b)
        } else {
            Placement::MapInstruction(b)
        }
    }
}

/// Computes the block-aligned mapping for a segment placed in flash.
pub fn map_blocks(load_addr: u32, data_addr: u32, data_len: u32) -> (b: Mapping)
    ensures
        b == block_mapping(load_addr, data_addr, data_len),
{
    let offset: u64 = (load_addr % 65536) as u64;
    let total: u64 = data_len as u64 + offset;
    let blocks: u64 = (total + 65535) / 65536;
    assert(blocks <= 65537) by (nonlinear_arith)
        requires blocks == (total + 65535) / 65536, total <= 0xFFFF_FFFF + 65535;
    Mapping {
        vaddr: load_addr - load_addr % 65536,
        paddr: data_addr - data_addr % 65536,
        blocks: blocks as u32,
    }
}

/// Decides where one segment goes: nowhere for a load address of zero, a copy
/// for a RAM address, else a mapping on the bus that its block belongs to.
pub fn place_segment(m: &AddressMap, data_addr: u32, seg: EspImageSegmentHeader) -> (p: Placement)
    ensures
        p == placement(*m, data_addr, seg),
{
    if seg.load_addr == 0 {
        Placement::Skip
    } else if m.is_ram(seg.load_addr as usize) {
        Placement::Copy { src: data_addr, dst: seg.load_addr, len: seg.data_len }
    } else {
        let b = map_blocks(seg.load_addr, data_addr, seg.data_len);
        if m.is_drom(b.vaddr) {
            Placement::MapData(b)
        } else {
            Placement::MapInstruction(b)
        }
    }
}

/// The mapping starts on block boundaries in both address spaces and covers
/// every payload byte, with no whole block to spare.
pub proof fn lemma_mapping_aligned(load_addr: u32, data_addr: u32, data_len: u32)
    ensures
        ({
            let b = block_mapping(load_addr, data_addr, data_len);
            &&& b.vaddr % 65536 == 0
            &&& b.paddr % 65536 == 0
            &&& b.blocks * 65536 >= load_addr % 65536 + data_len
            &&& (b.blocks - 1) * 65536 < load_addr % 65536 + data_len || b.blocks == 0
            &&& b.vaddr + b.blocks * 65536 >= load_addr + data_len
        }),
{
    let b = block_mapping(load_addr, data_addr, data_len);
    let t = data_len + load_addr % 65536;
    let n = ceil_div(t, 65536);
    assert(0 <= n <= 65537 && n * 65536 >= t && ((n - 1) * 65536 < t || n == 0)) by (nonlinear_arith)
        requires n == (t + 65535) / 65536, 0 <= t <= 0xFFFF_FFFF + 65535;
    assert(b.blocks == n);
    assert((load_addr - load_addr % 65536) % 65536 == 0) by (nonlinear_arith)
        requires 0 <= load_addr;
    assert((data_addr - data_addr % 65536) % 65536 == 0) by (nonlinear_arith)
        requires 0 <= data_addr;
}

/// On a chip whose data-bus window is block-aligned, a mapped segment goes to
/// the data bus exactly when its load address is in that window, and to the
/// instruction bus otherwise.
pub proof fn lemma_bus_dispatch(m: AddressMap, data_addr: u32, seg: EspImageSegmentHeader)
    requires
        m.wf(),
        seg.load_addr != 0,
        !m.ram(seg.load_addr as int),
    ensures
        placement(m, data_addr, seg) is MapData <==> m.drom(seg.load_addr as int),
        placement(m, data_addr, seg) is MapInstruction <==> !m.drom(seg.load_addr as int),
{
    crate::chip::lemma_block_start_same_bus(m, seg.load_addr as int);
}

} // verus!
