use vstd::prelude::*;

use crate::chip::{AddressMap, Window};

verus! {

/// Flash windows of the ESP32: data bus `0x3F40_0000 ..= 0x3FBF_FFFF`,
/// instruction bus `0x400C_2000 ..= 0x40BF_FFFF`.
pub open spec fn layout() -> AddressMap {
    AddressMap {
        drom: Window { lo: 0x3F40_0000, hi: 0x3FBF_FFFF },
        irom: Window { lo: 0x400C_2000, hi: 0x40BF_FFFF },
    }
}

/// The address map of the ESP32.
pub fn address_map() -> (m: AddressMap)
    ensures
        m == layout(),
        m.wf(),
{
    AddressMap {
        drom: Window { lo: 0x3F40_0000, hi: 0x3FBF_FFFF },
        irom: Window { lo: 0x400C_2000, hi: 0x40BF_FFFF },
    }
}

/// Whether a mapping at `addr` belongs on the data bus.
pub fn is_drom(addr: u32) -> (r: bool)
    ensures
        r == (0x3F40_0000 <= addr <= 0x3FBF_FFFF),
        r == layout().drom(addr as int),
{
    address_map().is_drom(addr)
}

/// Whether `addr` is RAM, outside both flash windows.
pub fn is_ram(addr: usize) -> (r: bool)
    ensures
        r == !(0x3F40_0000 <= addr <= 0x3FBF_FFFF || 0x400C_2000 <= addr <= 0x40BF_FFFF),
        r == layout().ram(addr as int),
{
    address_map().is_ram(addr)
}

} // verus!
