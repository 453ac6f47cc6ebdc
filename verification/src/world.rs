//! The world: a cube of block types and an atlas of their textures.
//!
//! The cube has 64 cells a side; the cell `(x, y, z)` is stored at
//! `z * 4096 + y * 64 + x`. Block type 0 is air. The atlas holds, for each of
//! 16 block types, a texture of 16 by 48 texels; the texel `(u, v)` of a block
//! type is stored at `u + v * 16 + block * 768`. A texel of colour 0 is
//! transparent. A world is made once and only read after that.

use vstd::prelude::*;
use crate::rng::{draw_u32, draw_u8};
use crate::texture::{brightness, roll, texel, texel_rule, Draws, Material};

verus! {

/// Cells along each side of the cube.
pub const SIDE: usize = 64;

/// Cells in the cube.
pub const VOLUME: usize = 262144;

/// Block types, air included.
pub const BLOCK_TYPES: usize = 16;

/// Texels in one block type's texture.
pub const TEXTURE_LEN: usize = 768;

/// Texels in the atlas.
pub const ATLAS_LEN: usize = 12288;

pub struct World {
    voxels: Vec<u8>,
    textures: Vec<u32>,
}

/// Whether a cell lies inside the cube.
pub open spec fn in_volume(x: int, y: int, z: int) -> bool {
    0 <= x < 64 && 0 <= y < 64 && 0 <= z < 64
}

/// Where the cube stores a cell.
pub open spec fn voxel_index(x: int, y: int, z: int) -> int {
    z * 4096 + y * 64 + x
}

/// Where the atlas stores a texel.
pub open spec fn texel_index(block: int, u: int, v: int) -> int {
    u + v * 16 + block * 768
}

/// Whether a block type has a texture: air has none, nor has a number that
/// is no block type.
pub open spec fn is_textured(block: u8) -> bool {
    1 <= block < 16
}

/// Whether a cube and an atlas are a world's: both complete, and every cell
/// a block type.
pub open spec fn is_world(voxels: Seq<u8>, textures: Seq<u32>) -> bool {
    &&& voxels.len() == VOLUME
    &&& textures.len() == ATLAS_LEN
    &&& forall|i: int| 0 <= i < VOLUME ==> #[trigger] voxels[i] < 16
}

/// Whether a mask marks the cell stored at `i` as solid. A cell that the mask
/// does not reach is not solid.
pub open spec fn is_solid(solid: Seq<bool>, i: int) -> bool {
    0 <= i < solid.len() && solid[i]
}

/// The block type whose texture holds the atlas entry at `i`.
pub open spec fn block_of(i: int) -> u8 {
    (i / 768) as u8
}

/// The column, in its texture, of the atlas entry at `i`.
pub open spec fn column_of(i: int) -> int {
    i % 16
}

/// The row, in its texture, of the atlas entry at `i`.
pub open spec fn row_of(i: int) -> int {
    (i % 768) / 16
}

/// The brightness that the texel at `i` inherits. The first texel of a
/// texture inherits the block type's seed, taken from full brightness; every
/// other one inherits what the texel stored before it hands on.
pub open spec fn carried_into(seeds: Seq<u32>, draws: Seq<Draws>, i: int) -> int
    decreases i,
{
    if i <= 0 || i % 768 == 0 {
        255 - seeds[i / 768]
    } else {
        brightness(
            Material::of_block(block_of(i - 1)),
            column_of(i - 1),
            row_of(i - 1),
            carried_into(seeds, draws, i - 1),
            draws[i - 1],
        )
    }
}

/// The colour that the texture rule paints at `i`, given each block type's
/// seed and each texel's draws.
pub open spec fn painted_with(seeds: Seq<u32>, draws: Seq<Draws>, i: int) -> u32 {
    texel_rule(block_of(i), column_of(i), row_of(i), carried_into(seeds, draws, i), draws[i]).color
}

/// Whether seeds and draws are what a generation can draw: one seed for each
/// block type and one set of draws for each texel, each within its range.
pub open spec fn is_drawn(seeds: Seq<u32>, draws: Seq<Draws>) -> bool {
    &&& seeds.len() == BLOCK_TYPES
    &&& draws.len() == ATLAS_LEN
    &&& forall|b: int| 0 <= b < BLOCK_TYPES ==> #[trigger] seeds[b] < 96
    &&& forall|i: int| 0 <= i < ATLAS_LEN ==> (#[trigger] draws[i]).valid()
}

/// Whether every texel of every textured block type in an atlas is what the
/// texture rule paints with the given seeds and draws.
pub open spec fn is_atlas_of(atlas: Seq<u32>, seeds: Seq<u32>, draws: Seq<Draws>) -> bool {
    &&& atlas.len() == ATLAS_LEN
    &&& is_drawn(seeds, draws)
    &&& forall|i: int| 768 <= i < ATLAS_LEN ==> #[trigger] atlas[i] == painted_with(seeds, draws, i)
}

/// What a texel inherits depends only on its block type's seed and on the
/// draws of the texels before it in its texture.
pub proof fn lemma_carried_frame(
    seeds: Seq<u32>,
    draws: Seq<Draws>,
    seeds2: Seq<u32>,
    draws2: Seq<Draws>,
    i: int,
)
    requires
        0 <= i,
        seeds[i / 768] == seeds2[i / 768],
        forall|k: int| (i / 768) * 768 <= k < i ==> #[trigger] draws[k] == draws2[k],
    ensures
        carried_into(seeds, draws, i) == carried_into(seeds2, draws2, i),
    decreases i,
{
    if i > 0 && i % 768 != 0 {
        assert((i - 1) / 768 == i / 768);
        lemma_carried_frame(seeds, draws, seeds2, draws2, i - 1);
    }
}

/// The cell that a draw settles: the drawn block type where the mask marks
/// the cell as solid, air where it does not. The drawn type may itself be
/// air, so a marked cell can still be empty.
pub open spec fn settled(solid: bool, drawn: u8) -> u8 {
    if solid {
        drawn
    } else {
        0
    }
}

/// Whether block types are what a generation can draw for the cube: one for
/// each cell, each a block type.
pub open spec fn is_drawn_cube(drawn: Seq<u8>) -> bool {
    &&& drawn.len() == VOLUME
    &&& forall|i: int| 0 <= i < VOLUME ==> #[trigger] drawn[i] < 16
}

/// Whether a cube is what the mask and the drawn block types settle, cell by
/// cell.
pub open spec fn is_cube_of(voxels: Seq<u8>, solid: Seq<bool>, drawn: Seq<u8>) -> bool {
    &&& voxels.len() == VOLUME
    &&& is_drawn_cube(drawn)
    &&& forall|i: int|
        0 <= i < VOLUME ==> #[trigger] voxels[i] == settled(is_solid(solid, i), drawn[i])
}

/// The mask and the drawn block types settle one cube: two cubes of the same
/// mask and the same draws are the same.
pub proof fn law_same_draws_same_cube(
    one: Seq<u8>,
    other: Seq<u8>,
    solid: Seq<bool>,
    drawn: Seq<u8>,
)
    requires
        is_cube_of(one, solid, drawn),
        is_cube_of(other, solid, drawn),
    ensures
        one == other,
{
    assert(one =~= other);
}

/// The seeds and the draws paint one atlas: two atlases of the same seeds
/// and draws, with the same texture of air, are the same.
pub proof fn law_same_draws_same_atlas(
    one: Seq<u32>,
    other: Seq<u32>,
    seeds: Seq<u32>,
    draws: Seq<Draws>,
)
    requires
        is_atlas_of(one, seeds, draws),
        is_atlas_of(other, seeds, draws),
        forall|i: int| 0 <= i < 768 ==> #[trigger] one[i] == other[i],
    ensures
        one == other,
{
    assert(one =~= other);
}

impl World {
    /// The block types of the cube, in storage order.
    pub closed spec fn voxels(&self) -> Seq<u8> {
        self.voxels@
    }

    /// The texels of the atlas, in storage order.
    pub closed spec fn atlas(&self) -> Seq<u32> {
        self.textures@
    }

    /// The cube and the atlas are complete, and every cell holds a block type.
    pub open spec fn wf(&self) -> bool {
        is_world(self.voxels(), self.atlas())
    }

    #[verifier::type_invariant]
    spec fn inv(&self) -> bool {
        self.wf()
    }

    /// The block type at a cell; air outside the cube.
    pub open spec fn voxel_at(&self, x: int, y: int, z: int) -> u8 {
        if in_volume(x, y, z) {
            self.voxels()[voxel_index(x, y, z)]
        } else {
            0
        }
    }

    /// The colour of a block type's texel; transparent where the block type
    /// has no texture.
    pub open spec fn texel_at(&self, block: u8, u: int, v: int) -> u32 {
        if is_textured(block) {
            self.atlas()[texel_index(block as int, u, v)]
        } else {
            0
        }
    }

    /// Every cell is air.
    pub open spec fn is_empty(&self) -> bool {
        forall|i: int| 0 <= i < VOLUME ==> #[trigger] self.voxels()[i] == 0
    }

    /// The textures are what the texture rule paints, for some seeds and
    /// draws.
    pub open spec fn is_painted(&self) -> bool {
        exists|seeds: Seq<u32>, draws: Seq<Draws>| is_atlas_of(self.atlas(), seeds, draws)
    }

    /// The cube is what the mask settles, for some drawn block types.
    pub open spec fn is_carved(&self, solid: Seq<bool>) -> bool {
        exists|drawn: Seq<u8>| is_cube_of(self.voxels(), solid, drawn)
    }

    /// Every cell that the mask does not mark as solid is air.
    pub open spec fn is_air_where_unmarked(&self, solid: Seq<bool>) -> bool {
        forall|i: int| 0 <= i < VOLUME && !is_solid(solid, i) ==> #[trigger] self.voxels()[i] == 0
    }

    /// The world with nothing in it: every cell air, every texel transparent.
    pub fn blank() -> (world: World)
        ensures
            world.wf(),
            world.is_empty(),
            forall|i: int| 0 <= i < ATLAS_LEN ==> #[trigger] world.atlas()[i] == 0,
    {
        World { voxels: vec![0u8; VOLUME], textures: vec![0u32; ATLAS_LEN] }
    }

    /// The block type at a cell. A cell outside the cube is air.
    pub fn get_voxel(&self, x: i32, y: i32, z: i32) -> (block: u8)
        ensures
            block == self.voxel_at(x as int, y as int, z as int),
            block < 16,
            !in_volume(x as int, y as int, z as int) ==> block == 0,
    {
        proof {
            use_type_invariant(self);
        }
        if x < 0 || y < 0 || z < 0 || x >= 64 || y >= 64 || z >= 64 {
            return 0;
        }
        self.voxels[cell_index(x as usize, y as usize, z as usize)]
    }

    /// The colour of the texel `(u, v)` of a block type. Air, and a number
    /// that is no block type, are transparent whatever `u` and `v` are; for a
    /// textured block type they are a column and a row of its texture.
    pub fn get_texture(&self, block_type: u8, u: usize, v: usize) -> (color: u32)
        requires
            is_textured(block_type) ==> u < 16 && v < 48,
        ensures
            color == self.texel_at(block_type, u as int, v as int),
            !is_textured(block_type) ==> color == 0,
    {
        proof {
            use_type_invariant(self);
        }
        if block_type == 0 || block_type >= 16 {
            return 0;
        }
        let idx: usize = u + v * 16 + (block_type as usize) * 768;
        self.textures[idx]
    }

    /// A world of given parts, where they are a world's: a complete cube of
    /// block types and a complete atlas.
    pub fn from_parts(voxels: Vec<u8>, textures: Vec<u32>) -> (made: Option<World>)
        ensures
            made is Some <==> is_world(voxels@, textures@),
            made matches Some(world) ==> world.wf() && world.voxels() == voxels@ && world.atlas()
                == textures@,
    {
        if voxels.len() != VOLUME || textures.len() != ATLAS_LEN {
            return None;
        }
        let mut i: usize = 0;
        while i < VOLUME
            invariant
                i <= VOLUME,
                voxels@.len() == VOLUME,
                forall|j: int| 0 <= j < i ==> #[trigger] voxels@[j] < 16,
            decreases VOLUME - i,
        {
            if voxels[i] >= 16 {
                return None;
            }
            i += 1;
        }
        Some(World { voxels, textures })
    }

    /// Generates the world's content in place: the textures from the texture
    /// rule and the random source, the cube from the mask and the random
    /// source. The texture of air is left as it was.
    pub fn init(&mut self, solid: &Vec<bool>)
        ensures
            final(self).wf(),
            final(self).is_painted(),
            final(self).is_carved(solid@),
            final(self).is_air_where_unmarked(solid@),
            forall|i: int| 0 <= i < 768 ==> #[trigger] final(self).atlas()[i] == old(self).atlas()[i],
    {
        proof {
            use_type_invariant(&*self);
        }
        let mut textures = self.textures.clone();
        let mut voxels = vec![0u8; VOLUME];
        paint_atlas(&mut textures);
        carve_cube(&mut voxels, solid);
        self.textures = textures;
        self.voxels = voxels;
    }

    /// A freshly generated world. `solid` marks, in storage order, the cells
    /// that are rock.
    pub fn new(solid: &Vec<bool>) -> (world: World)
        ensures
            world.wf(),
            world.is_painted(),
            world.is_carved(solid@),
            world.is_air_where_unmarked(solid@),
            forall|i: int| 0 <= i < 768 ==> #[trigger] world.atlas()[i] == 0,
    {
        let mut world = World::blank();
        world.init(solid);
        world
    }

    /// The atlas, in storage order.
    pub fn textures(&self) -> (atlas: &Vec<u32>)
        ensures
            atlas@ == self.atlas(),
            atlas@.len() == ATLAS_LEN,
    {
        proof {
            use_type_invariant(self);
        }
        &self.textures
    }
}

/// Where the cube stores the cell `(x, y, z)`.
pub fn cell_index(x: usize, y: usize, z: usize) -> (i: usize)
    requires
        x < SIDE,
        y < SIDE,
        z < SIDE,
    ensures
        i == voxel_index(x as int, y as int, z as int),
        i < VOLUME,
{
    z * 4096 + y * 64 + x
}

/// Paints the texture of every textured block type into an atlas, texel by
/// texel. Each block type draws a seed for the brightness that its first
/// texel inherits; each texel draws what its material calls for and inherits
/// the brightness that the texel before it hands on. The texture of air is
/// not touched.
pub fn paint_atlas(atlas: &mut Vec<u32>)
    requires
        old(atlas)@.len() == ATLAS_LEN,
    ensures
        exists|seeds: Seq<u32>, draws: Seq<Draws>| is_atlas_of(final(atlas)@, seeds, draws),
        forall|i: int| 0 <= i < 768 ==> #[trigger] final(atlas)@[i] == old(atlas)@[i],
{
    let ghost atlas0 = atlas@;
    let ghost mut seeds: Seq<u32> = Seq::new(BLOCK_TYPES as nat, |b: int| 0u32);
    let ghost mut draws: Seq<Draws> = Seq::new(
        ATLAS_LEN as nat,
        |i: int| Draws { hold: 0, noise: 0, ring: 0, coin: false },
    );
    let mut block: u8 = 1;
    while block < 16
        invariant
            1 <= block <= 16,
            atlas@.len() == ATLAS_LEN,
            is_drawn(seeds, draws),
            forall|i: int| 0 <= i < 768 ==> #[trigger] atlas@[i] == atlas0[i],
            forall|i: int|
                768 <= i < block * 768 ==> #[trigger] atlas@[i] == painted_with(seeds, draws, i),
        decreases 16 - block,
    {
        let seed = draw_u32(0, 96);
        proof {
            let seeded = seeds.update(block as int, seed);
            assert forall|i: int| 768 <= i < block * 768 implies painted_with(seeded, draws, i)
                == painted_with(seeds, draws, i) by {
                lemma_carried_frame(seeded, draws, seeds, draws, i);
            }
            seeds = seeded;
        }
        let mut brightness: u32 = 255 - seed;
        let mut y: u32 = 0;
        while y < 48
            invariant
                1 <= block < 16,
                y <= 48,
                atlas@.len() == ATLAS_LEN,
                is_drawn(seeds, draws),
                brightness <= 382,
                y < 48 ==> brightness == carried_into(seeds, draws, block * 768 + y * 16),
                forall|i: int| 0 <= i < 768 ==> #[trigger] atlas@[i] == atlas0[i],
                forall|i: int|
                    768 <= i < block * 768 + y * 16 ==> #[trigger] atlas@[i] == painted_with(
                        seeds,
                        draws,
                        i,
                    ),
            decreases 48 - y,
        {
            let mut x: u32 = 0;
            while x < 16
                invariant
                    1 <= block < 16,
                    y < 48,
                    x <= 16,
                    atlas@.len() == ATLAS_LEN,
                    is_drawn(seeds, draws),
                    brightness <= 382,
                    y * 16 + x < 768 ==> brightness == carried_into(
                        seeds,
                        draws,
                        block * 768 + y * 16 + x,
                    ),
                    forall|i: int| 0 <= i < 768 ==> #[trigger] atlas@[i] == atlas0[i],
                    forall|i: int|
                        768 <= i < block * 768 + y * 16 + x ==> #[trigger] atlas@[i]
                            == painted_with(seeds, draws, i),
                decreases 16 - x,
            {
                let idx: usize = (x as usize) + (y as usize) * 16 + (block as usize) * 768;
                let rolled = roll(block, x, y);
                let t = texel(block, x, y, brightness, &rolled);
                let ghost before = atlas@;
                let ghost drawn = draws.update(idx as int, rolled);
                atlas.set(idx, t.color);
                proof {
                    assert(block_of(idx as int) == block);
                    assert(column_of(idx as int) == x);
                    assert(row_of(idx as int) == y);
                    lemma_carried_frame(seeds, drawn, seeds, draws, idx as int);
                    assert forall|i: int| 768 <= i < idx + 1 implies #[trigger] atlas@[i]
                        == painted_with(seeds, drawn, i) by {
                        if i < idx {
                            lemma_carried_frame(seeds, drawn, seeds, draws, i);
                            assert(before[i] == painted_with(seeds, draws, i));
                        }
                    }
                    if (idx + 1) % 768 != 0 {
                        assert(carried_into(seeds, drawn, idx + 1) == t.brightness);
                    }
                    draws = drawn;
                }
                brightness = t.brightness;
                x += 1;
            }
            y += 1;
        }
        block += 1;
    }
    assert(is_atlas_of(atlas@, seeds, draws));
}

/// Settles one cell from its mask bit and its drawn block type.
pub fn settle(solid: bool, drawn: u8) -> (cell: u8)
    requires
        drawn < 16,
    ensures
        cell == settled(solid, drawn),
        cell < 16,
{
    if solid {
        drawn
    } else {
        0
    }
}

/// Fills a cube from a mask and from the block types drawn for its cells,
/// both in storage order: every cell is what its mask bit and its drawn
/// block type settle.
pub fn carve_with(voxels: &mut Vec<u8>, solid: &Vec<bool>, drawn: &Vec<u8>)
    requires
        old(voxels)@.len() == VOLUME,
        is_drawn_cube(drawn@),
    ensures
        is_cube_of(final(voxels)@, solid@, drawn@),
        forall|i: int| 0 <= i < VOLUME ==> #[trigger] final(voxels)@[i] < 16,
{
    let mut i: usize = 0;
    while i < VOLUME
        invariant
            i <= VOLUME,
            voxels@.len() == VOLUME,
            is_drawn_cube(drawn@),
            forall|j: int|
                0 <= j < i ==> #[trigger] voxels@[j] == settled(is_solid(solid@, j), drawn@[j]),
        decreases VOLUME - i,
    {
        let marked: bool = i < solid.len() && solid[i];
        voxels.set(i, settle(marked, drawn[i]));
        i += 1;
    }
}

/// Fills a cube: draws a block type from all 16 for every cell, walking the
/// cube by x, then y, then z, and settles the cells with the mask. A cell
/// that the mask marks as solid gets its drawn block type, so that it may
/// still come out as air; every other cell is air.
pub fn carve_cube(voxels: &mut Vec<u8>, solid: &Vec<bool>)
    requires
        old(voxels)@.len() == VOLUME,
    ensures
        exists|drawn: Seq<u8>| is_cube_of(final(voxels)@, solid@, drawn),
        forall|i: int| 0 <= i < VOLUME ==> #[trigger] final(voxels)@[i] < 16,
        forall|i: int| 0 <= i < VOLUME && !is_solid(solid@, i) ==> #[trigger] final(voxels)@[i] == 0,
{
    let mut drawn: Vec<u8> = vec![0u8; VOLUME];
    let mut x: usize = 0;
    while x < 64
        invariant
            x <= 64,
            is_drawn_cube(drawn@),
        decreases 64 - x,
    {
        let mut y: usize = 0;
        while y < 64
            invariant
                x < 64,
                y <= 64,
                is_drawn_cube(drawn@),
            decreases 64 - y,
        {
            let mut z: usize = 0;
            while z < 64
                invariant
                    x < 64,
                    y < 64,
                    z <= 64,
                    is_drawn_cube(drawn@),
                decreases 64 - z,
            {
                drawn.set(cell_index(x, y, z), draw_u8(0, 16));
                z += 1;
            }
            y += 1;
        }
        x += 1;
    }
    carve_with(voxels, solid, &drawn);
}

} // verus!
