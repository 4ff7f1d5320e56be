use vstd::prelude::*;

use crate::renderer::draw::magenta_byte;

verus! {

/// The colour (as a Win32 `COLORREF`, 0x00BBGGRR) that the layered window
/// shows as transparent: magenta.
pub const COLOR_KEY: u32 = 0x00FF00FF;

/// The background that the frame buffer is cleared to is exactly the
/// window's transparent colour: its blue, green and red bytes are those of
/// `COLOR_KEY`, and it is opaque.
pub proof fn law_clear_colour_is_colour_key()
    ensures
        magenta_byte(0) == (COLOR_KEY >> 16u32) & 0xFFu32,
        magenta_byte(1) == (COLOR_KEY >> 8u32) & 0xFFu32,
        magenta_byte(2) == COLOR_KEY & 0xFFu32,
        magenta_byte(3) == 0xFFu8,
{
    assert((0x00FF00FFu32 >> 16u32) & 0xFFu32 == 0xFFu32) by (bit_vector);
    assert((0x00FF00FFu32 >> 8u32) & 0xFFu32 == 0u32) by (bit_vector);
    assert(0x00FF00FFu32 & 0xFFu32 == 0xFFu32) by (bit_vector);
}

} // verus!
