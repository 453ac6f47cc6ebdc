//! The rule that paints one texel of a block's texture.
//!
//! A block's texture is 16 texels wide and 48 high: rows 0 to 15 are the top
//! face, rows 16 to 31 the sides, rows 32 to 47 a half-lit variant. A texel is
//! a material's pigment scaled by a brightness. The brightness is noise; the
//! material decides the pigment and bends the brightness. The rule itself is a
//! function of the texel's place and of the random draws handed to it, so it
//! can be stated and proved exactly; only `roll` rolls the dice.

use vstd::prelude::*;
use crate::color::{blue, green, is_channel, lemma_channels_of_packed, pack_rgb, packed, red};
use crate::rng::{draw_bool, draw_u32, draw_u8};

verus! {

/// Texels across one texture.
pub const TEXTURE_WIDTH: u32 = 16;

/// Texel rows in one texture: three faces of 16 rows.
pub const TEXTURE_HEIGHT: u32 = 48;

/// The brightest a texel can get: full brightness, raised by half on bark.
pub const MAX_BRIGHTNESS: u32 = 382;

pub const DIRT: u32 = 0x966C4A;

pub const STONE: u32 = 0x7F7F7F;

pub const BRICK: u32 = 0xB53A15;

pub const MORTAR: u32 = 0xBCAFA5;

pub const GRASS: u32 = 0x6AAA40;

pub const BARK: u32 = 0x675231;

pub const HEARTWOOD: u32 = 0xBC9862;

pub const WATER: u32 = 0x4040FF;

pub const LEAF: u32 = 0x50D937;

/// What a block is made of. Block types without a rule of their own are dirt.
#[derive(Clone, Copy, Debug)]
pub enum Material {
    Dirt,
    Grass,
    Stone,
    Brick,
    Log,
    Leaves,
    Water,
}

/// The random draws that one texel may consume. A rule reads only the draws
/// that its material calls for.
#[derive(Clone, Copy, Debug)]
pub struct Draws {
    /// Stone keeps the brightness of the texel before it unless this is 0.
    pub hold: u8,
    /// How far a fresh brightness lies below full brightness.
    pub noise: u32,
    /// How far a tree ring lies below its level's brightness.
    pub ring: u32,
    /// Bark: whether the brightness is bent. Leaves: whether the texel is a gap.
    pub coin: bool,
}

/// One painted texel: its colour, and the brightness that the next texel of
/// the same block inherits.
#[derive(Clone, Copy, Debug)]
pub struct Texel {
    pub color: u32,
    pub brightness: u32,
}

impl Material {
    /// The material of a block type.
    pub open spec fn of_block(block: u8) -> Material {
        if block == 1 {
            Material::Grass
        } else if block == 4 {
            Material::Stone
        } else if block == 5 {
            Material::Brick
        } else if block == 7 {
            Material::Log
        } else if block == 8 {
            Material::Leaves
        } else if block == 9 {
            Material::Water
        } else {
            Material::Dirt
        }
    }

    pub fn of(block: u8) -> (m: Material)
        ensures
            m == Self::of_block(block),
    {
        match block {
            1 => Material::Grass,
            4 => Material::Stone,
            5 => Material::Brick,
            7 => Material::Log,
            8 => Material::Leaves,
            9 => Material::Water,
            _ => Material::Dirt,
        }
    }
}

impl Draws {
    /// Each draw lies in the range it is drawn from.
    pub open spec fn valid(self) -> bool {
        self.hold < 3 && self.noise < 96 && self.ring < 32
    }
}

/// The first row, in column `x`, that lies below the grass cap. The cap's
/// lower edge is jagged: between 18 and 21 rows deep.
pub open spec fn grass_line(x: int) -> int {
    ((x * x * 3 + x * 81) / 4) % 4 + 18
}

/// Whether a brick texel is mortar: every fourth row, and one column in
/// eight, shifted by four from one course to the next.
pub open spec fn is_mortar(x: int, y: int) -> bool {
    (x + (y / 4) * 4) % 8 == 0 || y % 4 == 0
}

/// Whether a log texel lies on the cut face, inside the bark: on the top
/// face and on its half-lit variant.
pub open spec fn in_rings(x: int, y: int) -> bool {
    0 < x < 15 && ((0 < y < 15) || (32 < y < 47))
}

/// The distance of an offset from the centre of the cut face.
pub open spec fn from_centre(d: int) -> int {
    if d < 0 {
        1 - d
    } else {
        d
    }
}

/// Which of three brightness levels a tree ring has: the larger of the two
/// distances from the centre, counted in threes.
pub open spec fn ring_level(x: int, y: int) -> int {
    let xd = from_centre(x - 7);
    let yd = from_centre(y % 16 - 7);
    (if yd > xd { yd } else { xd }) % 3
}

/// The unscaled colour of a texel.
pub open spec fn pigment(m: Material, x: int, y: int, draws: Draws) -> u32 {
    match m {
        Material::Dirt => DIRT,
        Material::Grass => if y < grass_line(x) { GRASS } else { DIRT },
        Material::Stone => STONE,
        Material::Brick => if is_mortar(x, y) { MORTAR } else { BRICK },
        Material::Log => if in_rings(x, y) { HEARTWOOD } else { BARK },
        Material::Leaves => if draws.coin { 0 } else { LEAF },
        Material::Water => WATER,
    }
}

/// Whether a texel gets a fresh brightness. Stone holds the brightness before
/// it two times in three; every other material redraws.
pub open spec fn is_redrawn(m: Material, draws: Draws) -> bool {
    !(m is Stone) || draws.hold == 0
}

/// The brightness before the material bends it.
pub open spec fn noise_brightness(m: Material, carried: int, draws: Draws) -> int {
    if is_redrawn(m, draws) {
        255 - draws.noise
    } else {
        carried
    }
}

/// The brightness that a texel hands on to the next one: the noise, dimmed to
/// two thirds on the row under the grass cap, replaced by the ring's level on
/// a log's cut face, and on bark either kept or bent by half, up in even
/// columns and down in odd ones.
pub open spec fn brightness(m: Material, x: int, y: int, carried: int, draws: Draws) -> int {
    let b = noise_brightness(m, carried, draws);
    match m {
        Material::Grass => if y == grass_line(x) { b * 2 / 3 } else { b },
        Material::Log => if in_rings(x, y) {
            196 - draws.ring + ring_level(x, y) * 32
        } else if draws.coin {
            b * (150 - (x % 2) * 100) / 100
        } else {
            b
        },
        _ => b,
    }
}

/// The brightness that a texel is painted with: halved on the rows of the
/// half-lit variant, and full where a leaf texel is a gap.
pub open spec fn paint_brightness(m: Material, x: int, y: int, carried: int, draws: Draws) -> int {
    let b = brightness(m, x, y, carried, draws);
    if m is Leaves && draws.coin {
        255
    } else if y >= 32 {
        b / 2
    } else {
        b
    }
}

/// A colour with each channel scaled by `b` 255ths, rounded down.
pub open spec fn scaled(color: u32, b: int) -> int {
    packed(red(color) * b / 255, green(color) * b / 255, blue(color) * b / 255)
}

/// The texel of block type `block` at column `x` and row `y`, given the
/// brightness carried over from the texel before it and the draws.
pub open spec fn texel_rule(block: u8, x: int, y: int, carried: int, draws: Draws) -> Texel {
    let m = Material::of_block(block);
    Texel {
        color: scaled(pigment(m, x, y, draws), paint_brightness(m, x, y, carried, draws)) as u32,
        brightness: brightness(m, x, y, carried, draws) as u32,
    }
}

/// Whether a colour can be scaled by `b` 255ths without a channel leaving
/// its 8 bits.
pub open spec fn scales_within(color: u32, b: int) -> bool {
    &&& 0 <= b
    &&& is_channel(red(color) * b / 255)
    &&& is_channel(green(color) * b / 255)
    &&& is_channel(blue(color) * b / 255)
}

/// A channel scaled by at most full brightness is still a channel.
proof fn lemma_dimmed_channel(c: int, b: int)
    requires
        is_channel(c),
        0 <= b <= 255,
    ensures
        is_channel(c * b / 255),
{
    assert(0 <= c * b <= 255 * 255) by (nonlinear_arith)
        requires
            0 <= c <= 255,
            0 <= b <= 255,
    ;
}

/// Any colour can be scaled by a brightness of at most 255.
pub proof fn lemma_scales_when_dim(color: u32, b: int)
    requires
        0 <= b <= 255,
    ensures
        scales_within(color, b),
{
    lemma_dimmed_channel(red(color), b);
    lemma_dimmed_channel(green(color), b);
    lemma_dimmed_channel(blue(color), b);
}

/// Scales each channel of a colour by `b` 255ths, rounding down.
pub fn scale_color(color: u32, b: u32) -> (out: u32)
    requires
        b <= MAX_BRIGHTNESS,
        scales_within(color, b as int),
    ensures
        out == scaled(color, b as int),
{
    let r: u32 = (color / 65536) % 256;
    let g: u32 = (color / 256) % 256;
    let bl: u32 = color % 256;
    assert(r * b <= 255 * 382 && g * b <= 255 * 382 && bl * b <= 255 * 382) by (nonlinear_arith)
        requires
            r <= 255,
            g <= 255,
            bl <= 255,
            b <= 382,
    ;
    pack_rgb(r * b / 255, g * b / 255, bl * b / 255)
}

/// The first row below the grass cap in column `x`.
pub fn grass_line_at(x: u32) -> (row: u32)
    requires
        x < TEXTURE_WIDTH,
    ensures
        row == grass_line(x as int),
        18 <= row <= 21,
{
    assert(x * x <= 15 * 15) by (nonlinear_arith)
        requires
            x <= 15,
    ;
    ((x * x * 3 + x * 81) / 4) % 4 + 18
}

/// The tree ring's brightness level at a texel of the cut face.
pub fn ring_level_at(x: u32, y: u32) -> (level: u32)
    requires
        x < TEXTURE_WIDTH,
        y < TEXTURE_HEIGHT,
    ensures
        level == ring_level(x as int, y as int),
        level < 3,
{
    let xd: u32 = if x < 7 { 8 - x } else { x - 7 };
    let row: u32 = y % 16;
    let yd: u32 = if row < 7 { 8 - row } else { row - 7 };
    let far: u32 = if yd > xd { yd } else { xd };
    far % 3
}

/// The unscaled colour of a texel.
pub fn pigment_at(m: Material, x: u32, y: u32, draws: &Draws) -> (color: u32)
    requires
        x < TEXTURE_WIDTH,
        y < TEXTURE_HEIGHT,
    ensures
        color == pigment(m, x as int, y as int, *draws),
{
    match m {
        Material::Dirt => DIRT,
        Material::Grass => if y < grass_line_at(x) { GRASS } else { DIRT },
        Material::Stone => STONE,
        Material::Brick => if (x + (y / 4) * 4) % 8 == 0 || y % 4 == 0 { MORTAR } else { BRICK },
        Material::Log => if 0 < x && x < 15 && ((0 < y && y < 15) || (32 < y && y < 47)) {
            HEARTWOOD
        } else {
            BARK
        },
        Material::Leaves => if draws.coin { 0 } else { LEAF },
        Material::Water => WATER,
    }
}

/// The brightness that a texel hands on to the next one.
pub fn brightness_at(m: Material, x: u32, y: u32, carried: u32, draws: &Draws) -> (b: u32)
    requires
        x < TEXTURE_WIDTH,
        y < TEXTURE_HEIGHT,
        carried <= MAX_BRIGHTNESS,
        draws.valid(),
    ensures
        b == brightness(m, x as int, y as int, carried as int, *draws),
        b <= MAX_BRIGHTNESS,
        b > 255 ==> m is Stone || m is Log,
        b > 260 ==> m is Stone || (m is Log && !in_rings(x as int, y as int)),
{
    let fresh: bool = match m {
        Material::Stone => draws.hold == 0,
        _ => true,
    };
    let b: u32 = if fresh { 255 - draws.noise } else { carried };
    match m {
        Material::Grass => if y == grass_line_at(x) { b * 2 / 3 } else { b },
        Material::Log => if 0 < x && x < 15 && ((0 < y && y < 15) || (32 < y && y < 47)) {
            196 - draws.ring + ring_level_at(x, y) * 32
        } else if draws.coin {
            if x % 2 == 0 {
                b * 150 / 100
            } else {
                b * 50 / 100
            }
        } else {
            b
        },
        _ => b,
    }
}

/// The pigments that are painted brighter than full brightness stay within
/// their channels: stone and bark up to the brightest, heartwood up to the
/// brightest ring.
proof fn lemma_scales_when_bright(b: int)
    requires
        0 <= b <= MAX_BRIGHTNESS,
    ensures
        scales_within(STONE, b),
        scales_within(BARK, b),
        b <= 260 ==> scales_within(HEARTWOOD, b),
{
    assert(red(STONE) == 127 && green(STONE) == 127 && blue(STONE) == 127);
    assert(red(BARK) == 103 && green(BARK) == 82 && blue(BARK) == 49);
    assert(red(HEARTWOOD) == 188 && green(HEARTWOOD) == 152 && blue(HEARTWOOD) == 98);
}

/// Paints one texel from its place, the brightness carried over and the
/// draws: the rule, with nothing left to chance.
pub fn texel(block: u8, x: u32, y: u32, carried: u32, draws: &Draws) -> (t: Texel)
    requires
        x < TEXTURE_WIDTH,
        y < TEXTURE_HEIGHT,
        carried <= MAX_BRIGHTNESS,
        draws.valid(),
    ensures
        t == texel_rule(block, x as int, y as int, carried as int, *draws),
        t.brightness == brightness(
            Material::of_block(block),
            x as int,
            y as int,
            carried as int,
            *draws,
        ),
        t.brightness <= MAX_BRIGHTNESS,
        t.color < 0x100_0000,
{
    let m = Material::of(block);
    let color = pigment_at(m, x, y, draws);
    let b = brightness_at(m, x, y, carried, draws);
    let gap: bool = match m {
        Material::Leaves => draws.coin,
        _ => false,
    };
    let lit: u32 = if gap { 255 } else if y >= 32 { b / 2 } else { b };
    proof {
        if lit <= 255 {
            lemma_scales_when_dim(color, lit as int);
        } else {
            lemma_scales_when_bright(lit as int);
        }
        lemma_channels_of_packed(
            red(color) * lit / 255,
            green(color) * lit / 255,
            blue(color) * lit / 255,
        );
    }
    Texel { color: scale_color(color, lit), brightness: b }
}

/// Draws for one texel what its material calls for and no more: stone
/// draws whether to hold its brightness, and a noise only if it does not;
/// every other material draws a noise; a log draws a ring on its cut face
/// and a coin on its bark; leaves draw a coin. A draw that is not made is 0,
/// or false.
pub fn roll(block: u8, x: u32, y: u32) -> (draws: Draws)
    requires
        x < TEXTURE_WIDTH,
        y < TEXTURE_HEIGHT,
    ensures
        draws.valid(),
        !(Material::of_block(block) is Stone) ==> draws.hold == 0,
        !is_redrawn(Material::of_block(block), draws) ==> draws.noise == 0,
        !(Material::of_block(block) is Log && in_rings(x as int, y as int)) ==> draws.ring == 0,
        draws.coin ==> (Material::of_block(block) is Log && !in_rings(x as int, y as int))
            || Material::of_block(block) is Leaves,
{
    let m = Material::of(block);
    let hold: u8 = match m {
        Material::Stone => draw_u8(0, 3),
        _ => 0,
    };
    let noise: u32 = if hold == 0 { draw_u32(0, 96) } else { 0 };
    let mut ring: u32 = 0;
    let mut coin: bool = false;
    match m {
        Material::Log => {
            if 0 < x && x < 15 && ((0 < y && y < 15) || (32 < y && y < 47)) {
                ring = draw_u32(0, 32);
            } else {
                coin = draw_bool();
            }
        },
        Material::Leaves => {
            coin = draw_bool();
        },
        _ => {},
    }
    Draws { hold, noise, ring, coin }
}

/// Stone that holds hands on the brightness it was given: a run of stone
/// texels between two redraws has one brightness.
pub proof fn law_stone_holds(x: int, y: int, carried: int, draws: Draws)
    requires
        draws.hold != 0,
    ensures
        brightness(Material::Stone, x, y, carried, draws) == carried,
        !is_redrawn(Material::Stone, draws),
{
}

/// Only stone inherits: the texel of any other block type does not depend
/// on the brightness carried over.
pub proof fn law_others_redraw(block: u8, x: int, y: int, one: int, other: int, draws: Draws)
    requires
        block != 4,
    ensures
        texel_rule(block, x, y, one, draws) == texel_rule(block, x, y, other, draws),
{
}

} // verus!
