//! Packed colours: three 8-bit channels in one integer, red highest.

use vstd::prelude::*;

verus! {

/// The red channel of a packed colour. Bits above the 24th are ignored.
pub open spec fn red(color: u32) -> int {
    (color as int / 65536) % 256
}

/// The green channel of a packed colour.
pub open spec fn green(color: u32) -> int {
    (color as int / 256) % 256
}

/// The blue channel of a packed colour.
pub open spec fn blue(color: u32) -> int {
    color as int % 256
}

/// The packed colour with the given channels.
pub open spec fn packed(r: int, g: int, b: int) -> int {
    r * 65536 + g * 256 + b
}

/// Whether a value is a channel, that is below 256.
pub open spec fn is_channel(c: int) -> bool {
    0 <= c < 256
}

/// Packing three channels and reading them back gives the same channels.
pub proof fn lemma_channels_of_packed(r: int, g: int, b: int)
    requires
        is_channel(r),
        is_channel(g),
        is_channel(b),
    ensures
        0 <= packed(r, g, b) < 0x100_0000,
        red(packed(r, g, b) as u32) == r,
        green(packed(r, g, b) as u32) == g,
        blue(packed(r, g, b) as u32) == b,
{
}

/// Packs three channels into one colour.
pub fn pack_rgb(r: u32, g: u32, b: u32) -> (color: u32)
    requires
        is_channel(r as int),
        is_channel(g as int),
        is_channel(b as int),
    ensures
        color == packed(r as int, g as int, b as int),
        red(color) == r,
        green(color) == g,
        blue(color) == b,
{
    proof {
        lemma_channels_of_packed(r as int, g as int, b as int);
    }
    r * 65536 + g * 256 + b
}

/// The three channels of a packed colour: red, green, blue.
pub open spec fn channels(color: u32) -> (u8, u8, u8) {
    (red(color) as u8, green(color) as u8, blue(color) as u8)
}

} // verus!
