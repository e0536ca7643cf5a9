//! Derivation of the short network address from the device identity.
//!
//! A LoRaWAN network identifier carries an address-space class in bits
//! 21-23. Broader classes grant narrower per-device address spaces, so the
//! class selects how many low bits of the device identifier survive into
//! the network address.

use vstd::prelude::*;

verus! {

/// The network address that a device identifier and a network identifier
/// map to: the low 32 bits of the device identifier, masked down to the
/// width that the network identifier's class grants.
pub open spec fn spec_nwk_addr(dev_eui: u64, net_id: u32) -> u32 {
    let lower = (dev_eui & 0x0000_0000_ffff_ffff) as u32;
    let class = net_id & 0x00e0_0000;
    if class == 0x00e0_0000 {
        lower & 0x0000_007f
    } else if class == 0x00c0_0000 {
        lower & 0x0000_03ff
    } else if class == 0x00a0_0000 {
        lower & 0x0000_1fff
    } else if class == 0x0080_0000 {
        lower & 0x0000_ffff
    } else if class == 0x0060_0000 {
        lower & 0x0003_ffff
    } else if class == 0x0040_0000 {
        lower & 0x000f_ffff
    } else if class == 0x0020_0000 {
        lower & 0x00ff_ffff
    } else {
        lower & 0x01ff_ffff
    }
}

/// Form a device address given a device EUI and a LoRaWAN network id.
/// Pure and total; the class mask applied to the low bits of `dev_eui`
/// is exactly the one the class of `net_id` calls for.
pub fn nwk_addr(dev_eui: u64, net_id: u32) -> (addr: u32)
    ensures
        addr == spec_nwk_addr(dev_eui, net_id),
{
    let dev_eui_lower = (dev_eui & 0x0000_0000_ffff_ffff) as u32;
    match net_id & 0x00e0_0000 {
        0x00e0_0000 => dev_eui_lower & 0x0000_007f,
        0x00c0_0000 => dev_eui_lower & 0x0000_03ff,
        0x00a0_0000 => dev_eui_lower & 0x0000_1fff,
        0x0080_0000 => dev_eui_lower & 0x0000_ffff,
        0x0060_0000 => dev_eui_lower & 0x0003_ffff,
        0x0040_0000 => dev_eui_lower & 0x000f_ffff,
        0x0020_0000 => dev_eui_lower & 0x00ff_ffff,
        _ => dev_eui_lower & 0x01ff_ffff,
    }
}

} // verus!
