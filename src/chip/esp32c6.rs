use vstd::prelude::*;

use crate::chip::{AddressMap, Window};

verus! {

/// Flash window of the ESP32-C6: `0x4200_0000 ..= 0x42FF_FFFF`, reached
/// from both buses through a single MMU.
pub open spec fn layout() -> AddressMap {
    AddressMap {
        drom: Window { lo: 0x4200_0000, hi: 0x42FF_FFFF },
        irom: Window { lo: 0x4200_0000, hi: 0x42FF_FFFF },
    }
}

/// The address map of the ESP32-C6.
pub fn address_map() -> (m: AddressMap)
    ensures
        m == layout(),
        m.wf(),
{
    AddressMap {
        drom: Window { lo: 0x4200_0000, hi: 0x42FF_FFFF },
        irom: Window { lo: 0x4200_0000, hi: 0x42FF_FFFF },
    }
}

/// Whether `addr` is in the data-bus window, which on this chip is the whole
/// flash window.
pub fn is_drom(addr: u32) -> (r: bool)
    ensures
        r == (0x4200_0000 <= addr <= 0x42FF_FFFF),
        r == layout().drom(addr as int),
{
    address_map().is_drom(addr)
}

/// Whether `addr` is RAM, outside the flash window.
pub fn is_ram(addr: usize) -> (r: bool)
    ensures
        r == !(0x4200_0000 <= addr <= 0x42FF_FFFF),
        r == layout().ram(addr as int),
{
    address_map().is_ram(addr)
}

} // verus!
