use vstd::prelude::*;

pub mod esp32;
pub mod esp32c6;
pub mod esp32s2;
pub mod esp32s3;

verus! {

/// Size of one flash MMU page: mappings are installed in 64 KiB blocks.
pub const BLOCK_SIZE: u32 = 65536;

/// An inclusive range of addresses `lo ..= hi`.
#[derive(Clone, Copy, Debug, PartialEq, Eq, Structural)]
pub struct Window {
    pub lo: u32,
    pub hi: u32,
}

impl Window {
    pub open spec fn has(self, addr: int) -> bool {
        self.lo <= addr <= self.hi
    }

    /// Both ends of the window fall on 64 KiB block boundaries.
    pub open spec fn block_aligned(self) -> bool {
        &&& self.lo <= self.hi
        &&& self.lo % 65536 == 0
        &&& (self.hi + 1) % 65536 == 0
    }

    /// Whether `addr` lies in the window.
    pub fn contains(&self, addr: usize) -> (r: bool)
        ensures
            r == self.has(addr as int),
    {
        addr >= self.lo as usize && addr <= self.hi as usize
    }
}

/// Where a chip's flash can be mapped: a window on the data bus and a window on
/// the instruction bus. A chip whose single MMU serves both buses has the same
/// window twice, so every mapping on it goes through the data-bus call.
#[derive(Clone, Copy, Debug, PartialEq, Eq, Structural)]
pub struct AddressMap {
    pub drom: Window,
    pub irom: Window,
}

/// Which address space a destination address belongs to.
#[derive(Clone, Copy, Debug, PartialEq, Eq, Structural)]
pub enum AddressClass {
    Ram,
    InstructionBus,
    DataBus,
}

impl AddressMap {
    /// The data-bus window starts and ends on block boundaries, so rounding an
    /// address down to its block never moves it into or out of that window.
    pub open spec fn wf(self) -> bool {
        &&& self.drom.block_aligned()
        &&& self.irom.lo <= self.irom.hi
    }

    /// `addr` is directly addressable memory: in neither mapped window.
    pub open spec fn ram(self, addr: int) -> bool {
        !(self.drom.has(addr) || self.irom.has(addr))
    }

    /// A mapping at `addr` goes through the data bus.
    pub open spec fn drom(self, addr: int) -> bool {
        self.drom.has(addr)
    }

    pub open spec fn class(self, addr: int) -> AddressClass {
        if self.ram(addr) {
            AddressClass::Ram
        } else if self.drom(addr) {
            AddressClass::DataBus
        } else {
            AddressClass::InstructionBus
        }
    }

    /// Whether `addr` is in RAM, that is outside both flash windows.
    pub fn is_ram(&self, addr: usize) -> (r: bool)
        ensures
            r == self.ram(addr as int),
    {
        !(self.drom.contains(addr) || self.irom.contains(addr))
    }

    /// Whether a mapping at virtual address `vaddr` belongs on the data bus.
    pub fn is_drom(&self, vaddr: u32) -> (r: bool)
        ensures
            r == self.drom(vaddr as int),
    {
        self.drom.contains(vaddr as usize)
    }

    /// The address space of `addr`.
    pub fn classify(&self, addr: u32) -> (r: AddressClass)
        ensures
            r == self.class(addr as int),
    {
        if self.is_ram(addr as usize) {
            AddressClass::Ram
        } else if self.is_drom(addr) {
            AddressClass::DataBus
        } else {
            AddressClass::InstructionBus
        }
    }
}

/// Every address is in exactly one of RAM, the instruction-bus space and the
/// data-bus space; in particular an address in the data-bus window is never
/// RAM.
pub proof fn lemma_classes_partition(m: AddressMap, addr: int)
    ensures
        m.class(addr) == AddressClass::Ram <==> m.ram(addr),
        m.class(addr) == AddressClass::DataBus <==> (!m.ram(addr) && m.drom(addr)),
        m.class(addr) == AddressClass::InstructionBus <==> (!m.ram(addr) && !m.drom(addr)),
        m.drom(addr) ==> !m.ram(addr),
{
}

/// Rounding an address down to its block keeps it on the same side of the
/// data-bus window.
pub proof fn lemma_block_start_same_bus(m: AddressMap, addr: int)
    requires
        m.wf(),
        0 <= addr,
    ensures
        m.drom(addr - addr % 65536) == m.drom(addr),
{
    let base = addr - addr % 65536;
    assert(base % 65536 == 0) by (nonlinear_arith)
        requires base == addr - addr % 65536, 0 <= addr;
    if addr < m.drom.lo {
    } else if addr > m.drom.hi {
        assert(base >= m.drom.hi + 1) by (nonlinear_arith)
            requires
                base == addr - addr % 65536,
                base % 65536 == 0,
                (m.drom.hi + 1) % 65536 == 0,
                addr >= m.drom.hi + 1,
                0 <= addr % 65536 < 65536,
        ;
    } else {
        assert(base >= m.drom.lo) by (nonlinear_arith)
            requires
                base == addr - addr % 65536,
                base % 65536 == 0,
                m.drom.lo % 65536 == 0,
                addr >= m.drom.lo,
                0 <= addr % 65536 < 65536,
        ;
    }
}

} // verus!
