//! The ray caster: which surface a ray shows, and how it is lit.
//!
//! A ray is marched along each axis in turn, from one cell boundary of that
//! axis to the next. The caller does the geometry and hands over, for each
//! axis, the probes taken at those boundaries, nearest first. The library
//! decides: a probe shows a surface if its cell holds a block whose texel at
//! the probed place is not transparent; the first such probe along an axis is
//! that axis's hit, and a hit counts only if it is nearer than every hit
//! found before it. The axes are marched in the order X, Y, Z, so that of two
//! hits at the same distance the one on the earlier axis is shown.

use vstd::prelude::*;
use crate::color::{blue, green, is_channel, lemma_channels_of_packed, pack_rgb, packed, red};
use crate::world::World;

verus! {

/// The distance key of the horizon, 32 cells away: nothing at or beyond it
/// is shown.
pub const HORIZON: u32 = 0x4200_0000;

/// One of the three grid axes. A hit is named after the axis whose boundary
/// the ray crossed to reach it.
#[derive(Clone, Copy, Debug)]
pub enum Axis {
    X,
    Y,
    Z,
}

/// A ray sampled at one cell boundary.
#[derive(Clone, Copy, Debug)]
pub struct Probe {
    /// The marched distance as a key: keys order as the distances do. The key
    /// of a distance is its single-precision bit pattern, which for distances
    /// that are not negative orders as they do.
    pub reach: u32,
    /// The marched distance in 255ths of the horizon, rounded down.
    pub depth: u32,
    /// The position, rounded towards zero.
    pub x: i32,
    pub y: i32,
    pub z: i32,
    /// The position in sixteenths of a cell, rounded towards zero.
    pub fine_x: i32,
    pub fine_y: i32,
    pub fine_z: i32,
    /// The sum of the x and z positions in sixteenths of a cell, rounded
    /// towards zero.
    pub fine_xz: i32,
}

/// A ray as the grid sees it: its probes along each axis, nearest first. An
/// axis that the ray runs parallel to has no probes.
pub struct Ray {
    pub along_x: Vec<Probe>,
    pub along_y: Vec<Probe>,
    pub along_z: Vec<Probe>,
    /// Whether the ray moves towards smaller y.
    pub descending: bool,
}

/// A surface that a ray shows.
#[derive(Clone, Copy, Debug)]
pub struct Hit {
    /// The texel's colour, before lighting. Never 0.
    pub color: u32,
    pub axis: Axis,
    pub depth: u32,
    pub reach: u32,
}

impl Axis {
    /// The axis's number: 0 for X, 1 for Y, 2 for Z.
    pub open spec fn index(self) -> int {
        match self {
            Axis::X => 0,
            Axis::Y => 1,
            Axis::Z => 2,
        }
    }
}

/// A coordinate wrapped into the cube, which repeats every 64 cells.
pub open spec fn wrapped(c: i32) -> int {
    c as int % 64
}

/// A coordinate in sixteenths wrapped into the 16 texels of a cell's face.
pub open spec fn texel_part(c: i32) -> int {
    c as int % 16
}

/// The block type of the cell that a probe lies in.
pub open spec fn block_at(world: &World, p: Probe) -> u8 {
    world.voxel_at(wrapped(p.x), wrapped(p.y), wrapped(p.z))
}

/// The texel that a probe strikes on a face of its cell. A face across the Y
/// axis is a top, struck at its x and z, or for a descending ray a half-lit
/// variant, 32 rows further down. Any other face is a side, 16 rows down,
/// struck at the sum of x and z and at y.
pub open spec fn face_texel(axis: Axis, descending: bool, p: Probe) -> (int, int) {
    match axis {
        Axis::Y => (texel_part(p.fine_x), texel_part(p.fine_z) + if descending { 32int } else { 0 }),
        _ => (texel_part(p.fine_xz), texel_part(p.fine_y) + 16),
    }
}

/// The colour that a probe sees: the texel it strikes on the block of its
/// cell. It is 0 where the cell is air and where the texel is transparent.
pub open spec fn surface_color(world: &World, axis: Axis, descending: bool, p: Probe) -> u32 {
    let at = face_texel(axis, descending, p);
    world.texel_at(block_at(world, p), at.0, at.1)
}

/// The hit of a march along one axis, from the probe at `from` on: the first
/// probe that sees a colour, unless a probe at or beyond `limit` comes first.
pub open spec fn first_hit(
    world: &World,
    axis: Axis,
    descending: bool,
    probes: Seq<Probe>,
    limit: u32,
    from: int,
) -> Option<Hit>
    decreases probes.len() - from,
{
    if from < 0 || from >= probes.len() {
        None
    } else if probes[from].reach >= limit {
        None
    } else if surface_color(world, axis, descending, probes[from]) != 0 {
        Some(
            Hit {
                color: surface_color(world, axis, descending, probes[from]),
                axis,
                depth: probes[from].depth,
                reach: probes[from].reach,
            },
        )
    } else {
        first_hit(world, axis, descending, probes, limit, from + 1)
    }
}

/// How far a march may go, given the best hit so far: up to that hit, or up
/// to the horizon.
pub open spec fn limit_of(best: Option<Hit>) -> u32 {
    match best {
        Some(hit) => hit.reach,
        None => HORIZON,
    }
}

/// The best hit after one more axis has been marched.
pub open spec fn after_axis(
    world: &World,
    best: Option<Hit>,
    axis: Axis,
    descending: bool,
    probes: Seq<Probe>,
) -> Option<Hit> {
    match first_hit(world, axis, descending, probes, limit_of(best), 0) {
        Some(hit) => Some(hit),
        None => best,
    }
}

/// The surface that a ray shows, if any: the best hit after the X, the Y and
/// the Z axis have been marched, in that order.
pub open spec fn nearest_hit(world: &World, ray: &Ray) -> Option<Hit> {
    let x = after_axis(world, None, Axis::X, ray.descending, ray.along_x@);
    let y = after_axis(world, x, Axis::Y, ray.descending, ray.along_y@);
    after_axis(world, y, Axis::Z, ray.descending, ray.along_z@)
}

/// The light on a face, out of 255: full on faces across Y, 50 less on
/// faces across Z, 100 less on faces across X.
pub open spec fn face_light(axis: Axis) -> int {
    255 - ((axis.index() + 2) % 3) * 50
}

/// The light left at a depth, out of 255: it falls evenly with the depth and
/// is gone at the horizon.
pub open spec fn depth_light(depth: u32) -> int {
    255 - if depth < 255 { depth as int } else { 255 }
}

/// A channel lit by both lights, rounded down.
pub open spec fn lit_channel(c: int, axis: Axis, depth: u32) -> int {
    c * face_light(axis) * depth_light(depth) / 65025
}

/// A colour lit by both lights.
pub open spec fn shaded(color: u32, axis: Axis, depth: u32) -> int {
    packed(
        lit_channel(red(color), axis, depth),
        lit_channel(green(color), axis, depth),
        lit_channel(blue(color), axis, depth),
    )
}

/// The colour that a ray shows: its nearest hit, lit, or the sky, which is
/// black.
pub open spec fn cast(world: &World, ray: &Ray) -> int {
    match nearest_hit(world, ray) {
        Some(hit) => shaded(hit.color, hit.axis, hit.depth),
        None => 0,
    }
}

/// A lit channel is a channel, and no brighter than the unlit one.
proof fn lemma_lit_channel(c: int, axis: Axis, depth: u32)
    requires
        is_channel(c),
    ensures
        0 <= lit_channel(c, axis, depth) <= c,
        0 <= c * face_light(axis) * depth_light(depth) <= 255 * 255 * 255,
{
    let f = face_light(axis);
    let d = depth_light(depth);
    assert(0 <= c * f <= c * 255) by (nonlinear_arith)
        requires
            0 <= c,
            0 <= f <= 255,
    ;
    assert(0 <= (c * f) * d <= (c * 255) * 255) by (nonlinear_arith)
        requires
            0 <= c * f <= c * 255,
            0 <= d <= 255,
    ;
}

/// A coordinate wrapped into the cube.
fn wrap_cell(c: i32) -> (w: i32)
    ensures
        w == wrapped(c),
        0 <= w < 64,
{
    assert(c & 63 == c as int % 64) by (bit_vector);
    c & 63
}

/// A coordinate in sixteenths wrapped into the texels of a face.
fn wrap_texel(c: i32) -> (w: usize)
    ensures
        w == texel_part(c),
        w < 16,
{
    assert(c & 15 == c as int % 16) by (bit_vector);
    (c & 15) as usize
}

/// The light on a face, out of 255.
pub fn face_light_of(axis: Axis) -> (light: u32)
    ensures
        light == face_light(axis),
        155 <= light <= 255,
{
    match axis {
        Axis::X => 155,
        Axis::Y => 255,
        Axis::Z => 205,
    }
}

/// The light left at a depth, out of 255.
pub fn depth_light_of(depth: u32) -> (light: u32)
    ensures
        light == depth_light(depth),
        light <= 255,
{
    255 - if depth < 255 { depth } else { 255 }
}

/// Lights a colour: each channel is scaled by the light on the face and by
/// the light left at the depth, and rounded down.
pub fn shade(color: u32, axis: Axis, depth: u32) -> (lit: u32)
    ensures
        lit == shaded(color, axis, depth),
        red(lit) == lit_channel(red(color), axis, depth),
        green(lit) == lit_channel(green(color), axis, depth),
        blue(lit) == lit_channel(blue(color), axis, depth),
{
    let face = face_light_of(axis);
    let left = depth_light_of(depth);
    let r: u32 = (color / 65536) % 256;
    let g: u32 = (color / 256) % 256;
    let b: u32 = color % 256;
    proof {
        lemma_lit_channel(r as int, axis, depth);
        lemma_lit_channel(g as int, axis, depth);
        lemma_lit_channel(b as int, axis, depth);
        assert(r * face <= 255 * 255 && g * face <= 255 * 255 && b * face <= 255 * 255)
            by (nonlinear_arith)
            requires
                r <= 255,
                g <= 255,
                b <= 255,
                face <= 255,
        ;
    }
    pack_rgb(r * face * left / 65025, g * face * left / 65025, b * face * left / 65025)
}

/// The colour that a probe sees on the face it struck: 0 where its cell is
/// air or its texel transparent.
pub fn surface(world: &World, axis: Axis, descending: bool, probe: &Probe) -> (color: u32)
    ensures
        color == surface_color(world, axis, descending, *probe),
{
    let block = world.get_voxel(wrap_cell(probe.x), wrap_cell(probe.y), wrap_cell(probe.z));
    if block == 0 {
        return 0;
    }
    match axis {
        Axis::Y => {
            let u = wrap_texel(probe.fine_x);
            let v = wrap_texel(probe.fine_z);
            world.get_texture(block, u, if descending { v + 32 } else { v })
        },
        _ => {
            let u = wrap_texel(probe.fine_xz);
            let v = wrap_texel(probe.fine_y);
            world.get_texture(block, u, v + 16)
        },
    }
}

/// Marches one axis: the first probe that sees a colour is the hit, unless a
/// probe at or beyond `limit` comes first.
pub fn march(
    world: &World,
    axis: Axis,
    descending: bool,
    probes: &Vec<Probe>,
    limit: u32,
) -> (hit: Option<Hit>)
    ensures
        hit == first_hit(world, axis, descending, probes@, limit, 0),
        hit matches Some(h) ==> h.color != 0 && h.reach < limit,
{
    let mut i: usize = 0;
    while i < probes.len()
        invariant
            i <= probes@.len(),
            first_hit(world, axis, descending, probes@, limit, 0) == first_hit(
                world,
                axis,
                descending,
                probes@,
                limit,
                i as int,
            ),
        decreases probes@.len() - i,
    {
        let probe = &probes[i];
        if probe.reach >= limit {
            return None;
        }
        let color = surface(world, axis, descending, probe);
        if color != 0 {
            return Some(Hit { color, axis, depth: probe.depth, reach: probe.reach });
        }
        i += 1;
    }
    None
}

/// The surface that a ray shows, if any.
pub fn trace(world: &World, ray: &Ray) -> (hit: Option<Hit>)
    ensures
        hit == nearest_hit(world, ray),
        hit matches Some(h) ==> h.color != 0 && h.reach < HORIZON,
{
    let mut best: Option<Hit> = None;
    let mut limit: u32 = HORIZON;
    if let Some(hit) = march(world, Axis::X, ray.descending, &ray.along_x, limit) {
        limit = hit.reach;
        best = Some(hit);
    }
    if let Some(hit) = march(world, Axis::Y, ray.descending, &ray.along_y, limit) {
        limit = hit.reach;
        best = Some(hit);
    }
    if let Some(hit) = march(world, Axis::Z, ray.descending, &ray.along_z, limit) {
        best = Some(hit);
    }
    best
}

/// Casts a ray: the colour of the nearest surface it shows, lit by its face
/// and its depth, or 0, the colour of the sky, where it shows none.
pub fn cast_ray(world: &World, ray: &Ray) -> (color: u32)
    ensures
        color == cast(world, ray),
{
    match trace(world, ray) {
        Some(hit) => shade(hit.color, hit.axis, hit.depth),
        None => 0,
    }
}

/// A march through a world of air finds nothing.
proof fn lemma_no_hit_in_air(
    world: &World,
    axis: Axis,
    descending: bool,
    probes: Seq<Probe>,
    limit: u32,
    from: int,
)
    requires
        world.wf(),
        world.is_empty(),
    ensures
        first_hit(world, axis, descending, probes, limit, from) is None,
    decreases probes.len() - from,
{
    if 0 <= from < probes.len() && probes[from].reach < limit {
        let p = probes[from];
        assert(block_at(world, p) == 0);
        lemma_no_hit_in_air(world, axis, descending, probes, limit, from + 1);
    }
}

/// A ray that has no probes on any axis shows the sky. Such is a ray that
/// runs parallel to every axis: one whose direction is zero.
pub proof fn law_no_probes_show_sky(world: &World, ray: &Ray)
    requires
        ray.along_x@.len() == 0,
        ray.along_y@.len() == 0,
        ray.along_z@.len() == 0,
    ensures
        nearest_hit(world, ray) is None,
        cast(world, ray) == 0,
{
}

/// In a world where every cell is air, every ray shows the sky.
pub proof fn law_air_shows_sky(world: &World, ray: &Ray)
    requires
        world.wf(),
        world.is_empty(),
    ensures
        nearest_hit(world, ray) is None,
        cast(world, ray) == 0,
{
    lemma_no_hit_in_air(world, Axis::X, ray.descending, ray.along_x@, HORIZON, 0);
    lemma_no_hit_in_air(world, Axis::Y, ray.descending, ray.along_y@, HORIZON, 0);
    lemma_no_hit_in_air(world, Axis::Z, ray.descending, ray.along_z@, HORIZON, 0);
}

/// Of two hits on faces across the same axis and of the same colour, the
/// deeper one is no brighter in any channel.
pub proof fn law_deeper_is_darker(color: u32, axis: Axis, near: u32, far: u32)
    requires
        near <= far,
    ensures
        red(shaded(color, axis, far) as u32) <= red(shaded(color, axis, near) as u32),
        green(shaded(color, axis, far) as u32) <= green(shaded(color, axis, near) as u32),
        blue(shaded(color, axis, far) as u32) <= blue(shaded(color, axis, near) as u32),
{
    lemma_shaded_channels(color, axis, near);
    lemma_shaded_channels(color, axis, far);
    lemma_deeper_channel(red(color), axis, near, far);
    lemma_deeper_channel(green(color), axis, near, far);
    lemma_deeper_channel(blue(color), axis, near, far);
}

/// The channels of a lit colour are the lit channels of the colour.
pub proof fn lemma_shaded_channels(color: u32, axis: Axis, depth: u32)
    ensures
        0 <= shaded(color, axis, depth) < 0x100_0000,
        red(shaded(color, axis, depth) as u32) == lit_channel(red(color), axis, depth),
        green(shaded(color, axis, depth) as u32) == lit_channel(green(color), axis, depth),
        blue(shaded(color, axis, depth) as u32) == lit_channel(blue(color), axis, depth),
{
    lemma_lit_channel(red(color), axis, depth);
    lemma_lit_channel(green(color), axis, depth);
    lemma_lit_channel(blue(color), axis, depth);
    lemma_channels_of_packed(
        lit_channel(red(color), axis, depth),
        lit_channel(green(color), axis, depth),
        lit_channel(blue(color), axis, depth),
    );
}

/// A channel lit at a greater depth is no brighter.
proof fn lemma_deeper_channel(c: int, axis: Axis, near: u32, far: u32)
    requires
        is_channel(c),
        near <= far,
    ensures
        lit_channel(c, axis, far) <= lit_channel(c, axis, near),
{
    let f = face_light(axis);
    let dn = depth_light(near);
    let df = depth_light(far);
    assert(c * f * df <= c * f * dn) by (nonlinear_arith)
        requires
            0 <= c,
            0 <= f,
            df <= dn,
    ;
}

} // verus!
