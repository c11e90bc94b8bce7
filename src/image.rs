use vstd::prelude::*;

verus! {

/// Size in bytes of the packed image header.
pub const IMAGE_HEADER_SIZE: usize = 24;

/// Size in bytes of a segment header.
pub const SEGMENT_HEADER_SIZE: usize = 8;

/// Little-endian value of the two bytes of `b` at `off`.
pub open spec fn le_u16(b: Seq<u8>, off: int) -> int {
    b[off] + 256 * b[off + 1]
}

/// Little-endian value of the four bytes of `b` at `off`.
pub open spec fn le_u32(b: Seq<u8>, off: int) -> int {
    b[off] + 256 * b[off + 1] + 65536 * b[off + 2] + 16777216 * b[off + 3]
}

fn read_u16_le(b: &[u8], off: usize) -> (r: u16)
    requires
        off + 2 <= b@.len(),
    ensures
        r as int == le_u16(b@, off as int),
{
    (b[off] as u16) + 256 * (b[off + 1] as u16)
}

fn read_u32_le(b: &[u8], off: usize) -> (r: u32)
    requires
        off + 4 <= b@.len(),
    ensures
        r as int == le_u32(b@, off as int),
{
    (b[off] as u32) + 256 * (b[off + 1] as u32) + 65536 * (b[off + 2] as u32) + 16777216 * (
    b[off + 3] as u32)
}

/// The packed image header found at the start of an image in flash.
///
/// All multi-byte fields are little-endian; the record is 24 bytes long with
/// no padding between fields.
pub struct EspImageHeader {
    pub magic: u8,
    pub segment_count: u8,
    pub spi_mode: u8,
    pub spi_speed_and_size: u8,
    pub entry_addr: u32,
    pub wp_pin: u8,
    pub spi_pin_drv: [u8; 3],
    /// Raw chip identifier; see [`EspChipId::from_code`].
    pub chip_id: u16,
    pub min_chip_rev: u8,
    pub min_chip_rev_full: u16,
    pub max_chip_rev_full: u16,
    pub reserved: [u8; 4],
    pub hash_appended: u8,
}

/// The header that precedes each segment's payload in flash.
#[derive(Clone, Copy, Debug, PartialEq, Eq, Structural)]
pub struct EspImageSegmentHeader {
    pub load_addr: u32,
    pub data_len: u32,
}

/// Chip identifiers of the vendor registry, as carried in the header's
/// 16-bit `chip_id` field.
#[derive(Clone, Copy, Debug, PartialEq, Eq, Structural)]
pub enum EspChipId {
    Esp32,
    Esp32S2,
    Esp32C3,
    Esp32S3,
    Esp32C2,
    Esp32C6,
    Esp32H2,
    Esp32P4,
    Esp32C5Beta3,
    Esp32C5Mp,
    Invalid,
}

/// The registry code of each chip identifier.
pub open spec fn chip_code(id: EspChipId) -> u16 {
    match id {
        EspChipId::Esp32 => 0x0000,
        EspChipId::Esp32S2 => 0x0002,
        EspChipId::Esp32C3 => 0x0005,
        EspChipId::Esp32S3 => 0x0009,
        EspChipId::Esp32C2 => 0x000C,
        EspChipId::Esp32C6 => 0x000D,
        EspChipId::Esp32H2 => 0x0010,
        EspChipId::Esp32P4 => 0x0012,
        EspChipId::Esp32C5Beta3 => 0x0011,
        EspChipId::Esp32C5Mp => 0x0017,
        EspChipId::Invalid => 0xFFFF,
    }
}

impl EspChipId {
    /// The 16-bit registry code of this identifier.
    pub fn code(self) -> (r: u16)
        ensures
            r == chip_code(self),
    {
        match self {
            EspChipId::Esp32 => 0x0000,
            EspChipId::Esp32S2 => 0x0002,
            EspChipId::Esp32C3 => 0x0005,
            EspChipId::Esp32S3 => 0x0009,
            EspChipId::Esp32C2 => 0x000C,
            EspChipId::Esp32C6 => 0x000D,
            EspChipId::Esp32H2 => 0x0010,
            EspChipId::Esp32P4 => 0x0012,
            EspChipId::Esp32C5Beta3 => 0x0011,
            EspChipId::Esp32C5Mp => 0x0017,
            EspChipId::Invalid => 0xFFFF,
        }
    }

    /// The identifier with registry code `code`, or `None` for a code outside
    /// the registry.
    pub fn from_code(code: u16) -> (r: Option<EspChipId>)
        ensures
            r matches Some(id) ==> chip_code(id) == code,
            forall|id: EspChipId| chip_code(id) == code ==> r == Some(id),
            r is None <==> (forall|id: EspChipId| chip_code(id) != code),
    {
        let r = match code {
            0x0000 => Some(EspChipId::Esp32),
            0x0002 => Some(EspChipId::Esp32S2),
            0x0005 => Some(EspChipId::Esp32C3),
            0x0009 => Some(EspChipId::Esp32S3),
            0x000C => Some(EspChipId::Esp32C2),
            0x000D => Some(EspChipId::Esp32C6),
            0x0010 => Some(EspChipId::Esp32H2),
            0x0012 => Some(EspChipId::Esp32P4),
            0x0011 => Some(EspChipId::Esp32C5Beta3),
            0x0017 => Some(EspChipId::Esp32C5Mp),
            0xFFFF => Some(EspChipId::Invalid),
            _ => None,
        };
        proof {
            assert forall|id: EspChipId| chip_code(id) == code implies r == Some(id) by {
                match id {
                    EspChipId::Esp32 => {},
                    EspChipId::Esp32S2 => {},
                    EspChipId::Esp32C3 => {},
                    EspChipId::Esp32S3 => {},
                    EspChipId::Esp32C2 => {},
                    EspChipId::Esp32C6 => {},
                    EspChipId::Esp32H2 => {},
                    EspChipId::Esp32P4 => {},
                    EspChipId::Esp32C5Beta3 => {},
                    EspChipId::Esp32C5Mp => {},
                    EspChipId::Invalid => {},
                }
            }
            if let Some(id) = r {
                assert(chip_code(id) == code);
            }
        }
        r
    }
}

impl EspImageHeader {
    /// The chip this image was built for, when its code is in the registry.
    pub fn chip(&self) -> (r: Option<EspChipId>)
        ensures
            r matches Some(id) ==> chip_code(id) == self.chip_id,
            r is None <==> (forall|id: EspChipId| chip_code(id) != self.chip_id),
    {
        EspChipId::from_code(self.chip_id)
    }
}

/// `b` holds the wire form of `h` in its first 24 bytes.
pub open spec fn header_layout(b: Seq<u8>, h: EspImageHeader) -> bool {
    &&& b.len() >= IMAGE_HEADER_SIZE
    &&& b[0] == h.magic
    &&& b[1] == h.segment_count
    &&& b[2] == h.spi_mode
    &&& b[3] == h.spi_speed_and_size
    &&& le_u32(b, 4) == h.entry_addr
    &&& b[8] == h.wp_pin
    &&& b.subrange(9, 12) == h.spi_pin_drv@
    &&& le_u16(b, 12) == h.chip_id
    &&& b[14] == h.min_chip_rev
    &&& le_u16(b, 15) == h.min_chip_rev_full
    &&& le_u16(b, 17) == h.max_chip_rev_full
    &&& b.subrange(19, 23) == h.reserved@
    &&& b[23] == h.hash_appended
}

/// `b` holds the wire form of `s` in its first 8 bytes.
pub open spec fn segment_layout(b: Seq<u8>, s: EspImageSegmentHeader) -> bool {
    &&& b.len() >= SEGMENT_HEADER_SIZE
    &&& le_u32(b, 0) == s.load_addr
    &&& le_u32(b, 4) == s.data_len
}

/// Decodes the image header from the first 24 bytes of `bytes`.
pub fn decode_header(bytes: &[u8]) -> (h: EspImageHeader)
    requires
        bytes@.len() >= IMAGE_HEADER_SIZE,
    ensures
        header_layout(bytes@, h),
{
    let h = EspImageHeader {
        magic: bytes[0],
        segment_count: bytes[1],
        spi_mode: bytes[2],
        spi_speed_and_size: bytes[3],
        entry_addr: read_u32_le(bytes, 4),
        wp_pin: bytes[8],
        spi_pin_drv: [bytes[9], bytes[10], bytes[11]],
        chip_id: read_u16_le(bytes, 12),
        min_chip_rev: bytes[14],
        min_chip_rev_full: read_u16_le(bytes, 15),
        max_chip_rev_full: read_u16_le(bytes, 17),
        reserved: [bytes[19], bytes[20], bytes[21], bytes[22]],
        hash_appended: bytes[23],
    };
    assert(bytes@.subrange(9, 12) =~= h.spi_pin_drv@);
    assert(bytes@.subrange(19, 23) =~= h.reserved@);
    h
}

/// Decodes a segment header from the first 8 bytes of `bytes`.
pub fn decode_segment_header(bytes: &[u8]) -> (s: EspImageSegmentHeader)
    requires
        bytes@.len() >= SEGMENT_HEADER_SIZE,
    ensures
        segment_layout(bytes@, s),
{
    EspImageSegmentHeader { load_addr: read_u32_le(bytes, 0), data_len: read_u32_le(bytes, 4) }
}

fn split_u16_le(x: u16) -> (r: (u8, u8))
    ensures
        r.0 + 256 * r.1 == x,
{
    ((x % 256) as u8, (x / 256) as u8)
}

fn split_u32_le(x: u32) -> (r: (u8, u8, u8, u8))
    ensures
        r.0 + 256 * r.1 + 65536 * r.2 + 16777216 * r.3 == x,
{
    let q1: u32 = x / 256;
    let q2: u32 = q1 / 256;
    let q3: u32 = q2 / 256;
    ((x % 256) as u8, (q1 % 256) as u8, (q2 % 256) as u8, q3 as u8)
}

/// Encodes `h` into its 24-byte wire form.
pub fn encode_header(h: &EspImageHeader) -> (b: Vec<u8>)
    ensures
        b@.len() == IMAGE_HEADER_SIZE,
        header_layout(b@, *h),
{
    let e = split_u32_le(h.entry_addr);
    let c = split_u16_le(h.chip_id);
    let lo = split_u16_le(h.min_chip_rev_full);
    let hi = split_u16_le(h.max_chip_rev_full);
    let mut b: Vec<u8> = Vec::new();
    b.push(h.magic);
    b.push(h.segment_count);
    b.push(h.spi_mode);
    b.push(h.spi_speed_and_size);
    b.push(e.0);
    b.push(e.1);
    b.push(e.2);
    b.push(e.3);
    b.push(h.wp_pin);
    b.push(h.spi_pin_drv[0]);
    b.push(h.spi_pin_drv[1]);
    b.push(h.spi_pin_drv[2]);
    b.push(c.0);
    b.push(c.1);
    b.push(h.min_chip_rev);
    b.push(lo.0);
    b.push(lo.1);
    b.push(hi.0);
    b.push(hi.1);
    b.push(h.reserved[0]);
    b.push(h.reserved[1]);
    b.push(h.reserved[2]);
    b.push(h.reserved[3]);
    b.push(h.hash_appended);
    assert(b@.subrange(9, 12) =~= h.spi_pin_drv@);
    assert(b@.subrange(19, 23) =~= h.reserved@);
    b
}

/// Encodes `s` into its 8-byte wire form.
pub fn encode_segment_header(s: &EspImageSegmentHeader) -> (b: Vec<u8>)
    ensures
        b@.len() == SEGMENT_HEADER_SIZE,
        segment_layout(b@, *s),
{
    let a = split_u32_le(s.load_addr);
    let n = split_u32_le(s.data_len);
    let mut b: Vec<u8> = Vec::new();
    b.push(a.0);
    b.push(a.1);
    b.push(a.2);
    b.push(a.3);
    b.push(n.0);
    b.push(n.1);
    b.push(n.2);
    b.push(n.3);
    b
}

/// Decoding the wire form of a header gives back every field of that header:
/// the bytes determine the header uniquely.
pub proof fn lemma_header_round_trip(h: EspImageHeader, b: Seq<u8>, d: EspImageHeader)
    requires
        header_layout(b, h),
        header_layout(b, d),
    ensures
        d == h,
{
    assert(d.spi_pin_drv =~= h.spi_pin_drv) by {
        assert forall|i: int| 0 <= i < 3 implies d.spi_pin_drv[i] == h.spi_pin_drv[i] by {
            assert(b.subrange(9, 12)[i] == d.spi_pin_drv@[i]);
        }
    }
    assert(d.reserved =~= h.reserved) by {
        assert forall|i: int| 0 <= i < 4 implies d.reserved[i] == h.reserved[i] by {
            assert(b.subrange(19, 23)[i] == d.reserved@[i]);
        }
    }
}

/// Decoding the wire form of a segment header gives back that header.
pub proof fn lemma_segment_round_trip(s: EspImageSegmentHeader, b: Seq<u8>, d: EspImageSegmentHeader)
    requires
        segment_layout(b, s),
        segment_layout(b, d),
    ensures
        d == s,
{
}

} // verus!
