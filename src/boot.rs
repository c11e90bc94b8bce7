use vstd::prelude::*;

use crate::chip::AddressMap;
use crate::image::{
    decode_header,
    decode_segment_header,
    le_u32,
    EspImageSegmentHeader,
    IMAGE_HEADER_SIZE,
    SEGMENT_HEADER_SIZE,
};
use crate::placement::{place_segment, placement, Placement};

verus! {

/// Offset of the image in flash.
pub const IMAGE_OFFSET: u32 = 0x10000;

/// Flash offsets are 32-bit and wrap around.
pub open spec fn wrap32(x: int) -> u32 {
    (x % 0x1_0000_0000) as u32
}

/// Bytes that the segments `segs` take in flash, headers included.
pub open spec fn segments_size(segs: Seq<EspImageSegmentHeader>) -> int
    decreases segs.len(),
{
    if segs.len() == 0 {
        0
    } else {
        segments_size(segs.drop_last()) + SEGMENT_HEADER_SIZE + segs.last().data_len
    }
}

proof fn lemma_segments_size_nonneg(segs: Seq<EspImageSegmentHeader>)
    ensures
        segments_size(segs) >= 0,
    decreases segs.len(),
{
    if segs.len() > 0 {
        lemma_segments_size_nonneg(segs.drop_last());
    }
}

/// The flash cursor once the image header at `offset` and the segments `segs`
/// have been read past.
pub open spec fn image_cursor(offset: u32, segs: Seq<EspImageSegmentHeader>) -> u32 {
    wrap32(offset + IMAGE_HEADER_SIZE + segments_size(segs))
}

/// The segment header held in the first 8 bytes of `b`.
pub open spec fn segment_of(b: Seq<u8>) -> EspImageSegmentHeader {
    EspImageSegmentHeader { load_addr: le_u32(b, 0) as u32, data_len: le_u32(b, 4) as u32 }
}

/// Adding to an offset that has already wrapped gives the same result as
/// adding first and wrapping once.
proof fn lemma_wrap_add(a: int, k: int)
    requires
        0 <= a,
        0 <= k,
    ensures
        wrap32(wrap32(a) + k) == wrap32(a + k),
{
    let m: int = 0x1_0000_0000;
    assert((a % m + k) % m == (a + k) % m) by (nonlinear_arith)
        requires m == 0x1_0000_0000, 0 <= a, 0 <= k;
}

/// `a + k` on flash offsets, wrapping at 32 bits.
fn offset_add(a: u32, k: u32) -> (r: u32)
    ensures
        r == wrap32(a + k),
{
    ((a as u64 + k as u64) % 0x1_0000_0000) as u32
}

/// The step of the boot pass that the loader is waiting on.
#[derive(Clone, Copy, Debug, PartialEq, Eq, Structural)]
pub enum Phase {
    /// Nothing has been done yet.
    Idle,
    /// The flash device is being configured.
    ConfiguringFlash,
    /// Caching is being suspended.
    SuspendingCache,
    /// The image header is being read.
    ReadingHeader,
    /// A segment header is being read.
    ReadingSegment,
    /// A segment is being copied or mapped.
    Placing,
    /// Caching is being resumed.
    Resuming,
    /// Control has been handed to the image.
    Jumped,
}

/// What the platform reports back to the loader.
pub enum BootEvent {
    Start,
    FlashConfigured,
    CacheSuspended,
    /// The bytes a requested flash read produced.
    Data(Vec<u8>),
    /// A copy or mapping has been carried out, with its status (0: success).
    Placed(i32),
    CacheResumed,
}

/// What the loader asks the platform to do next.
#[derive(Clone, Copy, Debug, PartialEq, Eq, Structural)]
pub enum BootAction {
    /// Configure and attach the flash device.
    InitFlash,
    /// Suspend and invalidate caching, keeping the token that resumes it.
    InitMmu,
    /// Read `len` bytes of flash from offset `addr`.
    ReadFlash { addr: u32, len: u32 },
    /// Copy or map a segment; never [`Placement::Skip`].
    Place(Placement),
    /// Resume caching with the token kept at `InitMmu`.
    ResumeMmu,
    /// Hand control to `entry`, never to return.
    Jump { entry: u32 },
}

/// The state of one boot pass over the image.
pub struct BootSequencer {
    pub map: AddressMap,
    pub image_offset: u32,
    pub phase: Phase,
    pub segment_count: u8,
    /// Segments whose headers have been read.
    pub next_segment: u8,
    /// Flash offset of the next record to read.
    pub cursor: u32,
    pub entry_addr: u32,
    /// The segment headers read so far, in flash order.
    pub segments: Ghost<Seq<EspImageSegmentHeader>>,
}

impl BootSequencer {
    pub open spec fn wf(self) -> bool {
        &&& self.next_segment <= self.segment_count
        &&& self.segments@.len() == self.next_segment
        &&& self.cursor == if self.header_read() {
            image_cursor(self.image_offset, self.segments@)
        } else {
            self.image_offset
        }
        &&& !self.header_read() ==> self.segment_count == 0
        &&& self.phase == Phase::ReadingSegment ==> self.next_segment < self.segment_count
        &&& self.phase == Phase::Placing ==> self.next_segment > 0
        &&& (self.phase == Phase::Resuming || self.phase == Phase::Jumped) ==> self.next_segment
            == self.segment_count
    }

    /// The image header has been read.
    pub open spec fn header_read(self) -> bool {
        !(self.phase == Phase::Idle || self.phase == Phase::ConfiguringFlash || self.phase
            == Phase::SuspendingCache || self.phase == Phase::ReadingHeader)
    }

    /// `e` is the report that the current phase waits for.
    pub open spec fn accepts(self, e: BootEvent) -> bool {
        match self.phase {
            Phase::Idle => e is Start,
            Phase::ConfiguringFlash => e is FlashConfigured,
            Phase::SuspendingCache => e is CacheSuspended,
            Phase::ReadingHeader => e matches BootEvent::Data(b) && b@.len() >= IMAGE_HEADER_SIZE,
            Phase::ReadingSegment => e matches BootEvent::Data(b) && b@.len()
                >= SEGMENT_HEADER_SIZE,
            Phase::Placing => e is Placed,
            Phase::Resuming => e is CacheResumed,
            Phase::Jumped => false,
        }
    }

    /// Once a segment is done: read the next segment header, or resume caching
    /// after the last one.
    pub open spec fn proceed(self) -> (Self, BootAction) {
        if self.next_segment < self.segment_count {
            (
                BootSequencer { phase: Phase::ReadingSegment, ..self },
                BootAction::ReadFlash { addr: self.cursor, len: SEGMENT_HEADER_SIZE as u32 },
            )
        } else {
            (BootSequencer { phase: Phase::Resuming, ..self }, BootAction::ResumeMmu)
        }
    }

    /// The state after reading past the segment `seg`.
    pub open spec fn past_segment(self, seg: EspImageSegmentHeader) -> Self {
        BootSequencer {
            next_segment: (self.next_segment + 1) as u8,
            cursor: wrap32(self.cursor + SEGMENT_HEADER_SIZE + seg.data_len),
            segments: Ghost::new(self.segments@.push(seg)),
            ..self
        }
    }

    /// The next state and action of the loader on report `e`.
    pub open spec fn next(self, e: BootEvent) -> (Self, BootAction) {
        match self.phase {
            Phase::Idle => (
                BootSequencer { phase: Phase::ConfiguringFlash, ..self },
                BootAction::InitFlash,
            ),
            Phase::ConfiguringFlash => (
                BootSequencer { phase: Phase::SuspendingCache, ..self },
                BootAction::InitMmu,
            ),
            Phase::SuspendingCache => (
                BootSequencer { phase: Phase::ReadingHeader, ..self },
                BootAction::ReadFlash { addr: self.image_offset, len: IMAGE_HEADER_SIZE as u32 },
            ),
            Phase::ReadingHeader => {
                let b = e->Data_0@;
                BootSequencer {
                    phase: Phase::Placing,
                    segment_count: b[1],
                    entry_addr: le_u32(b, 4) as u32,
                    next_segment: 0,
                    cursor: image_cursor(self.image_offset, Seq::empty()),
                    segments: Ghost::new(Seq::empty()),
                    ..self
                }.proceed()
            },
            Phase::ReadingSegment => {
                let seg = segment_of(e->Data_0@);
                let p = placement(self.map, wrap32(self.cursor + SEGMENT_HEADER_SIZE), seg);
                let t = self.past_segment(seg);
                if p is Skip {
                    t.proceed()
                } else {
                    (BootSequencer { phase: Phase::Placing, ..t }, BootAction::Place(p))
                }
            },
            Phase::Placing => self.proceed(),
            Phase::Resuming => (
                BootSequencer { phase: Phase::Jumped, ..self },
                BootAction::Jump { entry: self.entry_addr },
            ),
            Phase::Jumped => (self, BootAction::Jump { entry: self.entry_addr }),
        }
    }

    /// A loader about to boot the image at flash offset `image_offset` on a
    /// chip with address map `map`.
    pub fn new(map: AddressMap, image_offset: u32) -> (s: Self)
        ensures
            s.wf(),
            s.map == map,
            s.image_offset == image_offset,
            s.phase == Phase::Idle,
    {
        BootSequencer {
            map,
            image_offset,
            phase: Phase::Idle,
            segment_count: 0,
            next_segment: 0,
            cursor: image_offset,
            entry_addr: 0,
            segments: Ghost(Seq::empty()),
        }
    }

    /// Whether `e` is the report that the current phase waits for.
    pub fn expects(&self, e: &BootEvent) -> (r: bool)
        ensures
            r == self.accepts(*e),
    {
        match self.phase {
            Phase::Idle => matches!(e, BootEvent::Start),
            Phase::ConfiguringFlash => matches!(e, BootEvent::FlashConfigured),
            Phase::SuspendingCache => matches!(e, BootEvent::CacheSuspended),
            Phase::ReadingHeader => match e {
                BootEvent::Data(b) => b.len() >= IMAGE_HEADER_SIZE,
                _ => false,
            },
            Phase::ReadingSegment => match e {
                BootEvent::Data(b) => b.len() >= SEGMENT_HEADER_SIZE,
                _ => false,
            },
            Phase::Placing => matches!(e, BootEvent::Placed(_)),
            Phase::Resuming => matches!(e, BootEvent::CacheResumed),
            Phase::Jumped => false,
        }
    }

    fn proceed_exec(&mut self) -> (r: BootAction)
        ensures
            (*final(self), r) == old(self).proceed(),
    {
        if self.next_segment < self.segment_count {
            self.phase = Phase::ReadingSegment;
            BootAction::ReadFlash { addr: self.cursor, len: SEGMENT_HEADER_SIZE as u32 }
        } else {
            self.phase = Phase::Resuming;
            BootAction::ResumeMmu
        }
    }

    /// Takes the report `e` of the last action and returns the next action.
    pub fn step(&mut self, e: BootEvent) -> (r: BootAction)
        requires
            old(self).wf(),
            old(self).accepts(e),
        ensures
            (*final(self), r) == old(self).next(e),
            final(self).wf(),
    {
        let ghost e0 = e;
        match self.phase {
            Phase::Idle => {
                self.phase = Phase::ConfiguringFlash;
                BootAction::InitFlash
            },
            Phase::ConfiguringFlash => {
                self.phase = Phase::SuspendingCache;
                BootAction::InitMmu
            },
            Phase::SuspendingCache => {
                self.phase = Phase::ReadingHeader;
                BootAction::ReadFlash { addr: self.image_offset, len: IMAGE_HEADER_SIZE as u32 }
            },
            Phase::ReadingHeader => {
                let b = match e {
                    BootEvent::Data(b) => b,
                    _ => Vec::new(),
                };
                let h = decode_header(b.as_slice());
                self.phase = Phase::Placing;
                self.segment_count = h.segment_count;
                self.entry_addr = h.entry_addr;
                self.next_segment = 0;
                self.cursor = offset_add(self.image_offset, IMAGE_HEADER_SIZE as u32);
                self.segments = Ghost(Seq::empty());
                self.proceed_exec()
            },
            Phase::ReadingSegment => {
                let b = match e {
                    BootEvent::Data(b) => b,
                    _ => Vec::new(),
                };
                let seg = decode_segment_header(b.as_slice());
                let data_addr = offset_add(self.cursor, SEGMENT_HEADER_SIZE as u32);
                let p = place_segment(&self.map, data_addr, seg);
                let ghost old_segs = self.segments@;
                let next = ((self.cursor as u64 + SEGMENT_HEADER_SIZE as u64 + seg.data_len as u64)
                    % 0x1_0000_0000) as u32;
                proof {
                    assert(seg == segment_of(e0->Data_0@));
                    assert(old_segs.push(seg).drop_last() =~= old_segs);
                    lemma_segments_size_nonneg(old_segs);
                    lemma_wrap_add(
                        self.image_offset + IMAGE_HEADER_SIZE + segments_size(old_segs),
                        SEGMENT_HEADER_SIZE + seg.data_len,
                    );
                }
                self.next_segment = self.next_segment + 1;
                self.cursor = next;
                self.segments = Ghost(old_segs.push(seg));
                match p {
                    Placement::Skip => self.proceed_exec(),
                    _ => {
                        self.phase = Phase::Placing;
                        BootAction::Place(p)
                    },
                }
            },
            Phase::Placing => self.proceed_exec(),
            Phase::Resuming => {
                self.phase = Phase::Jumped;
                BootAction::Jump { entry: self.entry_addr }
            },
            Phase::Jumped => BootAction::Jump { entry: self.entry_addr },
        }
    }
}

} // verus!

verus! {

/// Once the last segment is done, the cursor has advanced past the header and
/// past every segment header and payload, whatever became of each segment;
/// when that sum fits in 32 bits it is the cursor itself.
pub proof fn lemma_cursor_after_all_segments(s: BootSequencer)
    requires
        s.wf(),
        s.phase == Phase::Resuming,
    ensures
        s.segments@.len() == s.segment_count,
        s.cursor == wrap32(s.image_offset + IMAGE_HEADER_SIZE + segments_size(s.segments@)),
        s.image_offset + IMAGE_HEADER_SIZE + segments_size(s.segments@) < 0x1_0000_0000
            ==> s.cursor == s.image_offset + IMAGE_HEADER_SIZE + segments_size(s.segments@),
{
    lemma_segments_size_nonneg(s.segments@);
}

/// A segment whose load address is zero is neither copied nor mapped: the next
/// action reads the following segment header or resumes caching, and the
/// cursor still moves past the whole segment.
pub proof fn lemma_skip_rule(s: BootSequencer, e: BootEvent)
    requires
        s.wf(),
        s.phase == Phase::ReadingSegment,
        s.accepts(e),
        segment_of(e->Data_0@).load_addr == 0,
    ensures
        ({
            let (t, a) = s.next(e);
            &&& !(a is Place)
            &&& t.phase != Phase::Placing
            &&& a == BootAction::ReadFlash { addr: t.cursor, len: SEGMENT_HEADER_SIZE as u32 }
                || a == BootAction::ResumeMmu
            &&& t.cursor == wrap32(
                s.cursor + SEGMENT_HEADER_SIZE + segment_of(e->Data_0@).data_len,
            )
            &&& t.segments@ == s.segments@.push(segment_of(e->Data_0@))
            &&& s.cursor + SEGMENT_HEADER_SIZE + segment_of(e->Data_0@).data_len < 0x1_0000_0000
                ==> t.cursor == s.cursor + SEGMENT_HEADER_SIZE + segment_of(e->Data_0@).data_len
        }),
{
}

} // verus!

verus! {

/// Caching is resumed once, as the last platform call: after the resume the
/// only report taken is its completion, which yields the jump, and after the
/// jump no report is taken.
pub proof fn lemma_resume_then_jump(s: BootSequencer, e: BootEvent, f: BootEvent, g: BootEvent)
    requires
        s.wf(),
        s.accepts(e),
        s.next(e).1 == BootAction::ResumeMmu,
    ensures
        s.next(e).0.phase == Phase::Resuming,
        s.next(e).0.accepts(f) <==> f is CacheResumed,
        s.next(e).0.accepts(f) ==> s.next(e).0.next(f).1 == (BootAction::Jump {
            entry: s.next(e).0.entry_addr,
        }),
        s.next(e).0.accepts(f) ==> !s.next(e).0.next(f).0.accepts(g),
{
}

} // verus!
