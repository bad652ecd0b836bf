use vstd::prelude::*;

verus! {

#[verifier::external_type_specification]
pub struct ExColor(orbclient::Color);

/// Relies on orbclient's `Color::rgb`: an opaque color with the channels packed
/// as `0xFFRRGGBB`.
pub assume_specification[ orbclient::Color::rgb ](r: u8, g: u8, b: u8) -> (c: orbclient::Color)
    ensures
        c.data == 0xFF00_0000u32 | ((r as u32) << 16u32) | ((g as u32) << 8u32) | (b as u32),
;

pub fn black() -> (c: orbclient::Color)
    ensures
        c.data == 0xFF00_0000u32,
{
    let c = orbclient::Color::rgb(0, 0, 0);
    assert(0xFF00_0000u32 | ((0u8 as u32) << 16u32) | ((0u8 as u32) << 8u32) | (0u8 as u32) == 0xFF00_0000u32) by (bit_vector);
    c
}

} // verus!
