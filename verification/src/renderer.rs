//! The frame: one colour for each pixel, row by row.
//!
//! The renderer owns the frame and fills it by casting one ray for each
//! pixel. Where the camera stands and how a pixel's ray runs is the caller's
//! geometry: the caller hands over a function from a phase and a pixel to
//! the pixel's sampled ray. What the library keeps of the camera is its
//! clock: the camera's path repeats every ten seconds, and the caller's
//! function is told the phase within that cycle and nothing else of the
//! time, so that a frame depends on the time only through the phase.

use vstd::prelude::*;
use vstd::arithmetic::div_mod::{lemma_fundamental_div_mod, lemma_fundamental_div_mod_converse};
use crate::ray::{cast, cast_ray, Ray};
use crate::world::World;

verus! {

/// The length of the camera's cycle, in milliseconds.
pub const CYCLE_MS: u64 = 10000;

pub struct Renderer {
    width: usize,
    height: usize,
    frame_buffer: Vec<u32>,
}

/// Where a frame of the given width stores the pixel in column `x` of row
/// `y`.
pub open spec fn pixel_index(width: int, x: int, y: int) -> int {
    y * width + x
}

/// The phase of a time within the camera's cycle, in milliseconds.
pub open spec fn phase_of(elapsed_ms: int) -> int {
    elapsed_ms % 10000
}

/// Whether `color` is what the ray of pixel `(x, y)` shows in a world at a
/// phase of the cycle, for a ray that `ray_at` may return for them.
pub open spec fn shows<F: Fn(u64, usize, usize) -> Ray>(
    world: &World,
    ray_at: F,
    phase: u64,
    x: usize,
    y: usize,
    color: u32,
) -> bool {
    exists|ray: Ray| #[trigger] ray_at.ensures((phase, x, y), ray) && color == cast(world, &ray)
}

/// Whether `ray_at` gives one ray for each pixel at each phase: whether it
/// is a function.
pub open spec fn gives_one_ray<F: Fn(u64, usize, usize) -> Ray>(ray_at: F) -> bool {
    forall|phase: u64, x: usize, y: usize, a: Ray, b: Ray|
        #[trigger] ray_at.ensures((phase, x, y), a) && #[trigger] ray_at.ensures((phase, x, y), b)
            ==> a == b
}

/// A pixel's index lies within the frame, and tells the pixel.
pub proof fn lemma_pixel_index(width: int, height: int, x: int, y: int)
    requires
        0 <= x < width,
        0 <= y < height,
    ensures
        0 <= pixel_index(width, x, y) < width * height,
        pixel_index(width, x, y) % width == x,
        pixel_index(width, x, y) / width == y,
{
    assert((y + 1) * width <= height * width) by (nonlinear_arith)
        requires
            y + 1 <= height,
            0 <= width,
    ;
    assert((y + 1) * width == y * width + width) by (nonlinear_arith);
    assert(height * width == width * height) by (nonlinear_arith);
    assert(0 <= y * width) by (nonlinear_arith)
        requires
            0 <= y,
            0 <= width,
    ;
    lemma_fundamental_div_mod_converse(pixel_index(width, x, y), width, y, x);
}

/// The phase of a time within the camera's cycle, in milliseconds.
pub fn cycle_phase(elapsed_ms: u64) -> (phase: u64)
    ensures
        phase == phase_of(elapsed_ms as int),
        phase < CYCLE_MS,
{
    elapsed_ms % CYCLE_MS
}

/// A whole cycle later the camera is where it was: the phase of a time and of
/// the time one cycle after it are the same.
pub proof fn law_phase_repeats(elapsed_ms: int)
    requires
        0 <= elapsed_ms,
    ensures
        phase_of(elapsed_ms + CYCLE_MS) == phase_of(elapsed_ms),
{
}

impl Renderer {
    /// Pixels in a row.
    pub closed spec fn columns(&self) -> int {
        self.width as int
    }

    /// Rows in the frame.
    pub closed spec fn rows(&self) -> int {
        self.height as int
    }

    /// The frame's pixels, row by row.
    pub closed spec fn pixels(&self) -> Seq<u32> {
        self.frame_buffer@
    }

    /// The frame holds one pixel for each column of each row.
    pub open spec fn wf(&self) -> bool {
        &&& 0 <= self.columns()
        &&& 0 <= self.rows()
        &&& self.pixels().len() == self.columns() * self.rows()
    }

    /// The colour of the pixel in column `x` of row `y`.
    pub open spec fn pixel(&self, x: int, y: int) -> u32 {
        self.pixels()[pixel_index(self.columns(), x, y)]
    }

    /// Whether the frame is one that `ray_at` renders of a world at a phase
    /// of the cycle: every pixel is what its ray shows.
    pub open spec fn renders<F: Fn(u64, usize, usize) -> Ray>(
        &self,
        world: &World,
        ray_at: F,
        phase: u64,
    ) -> bool {
        forall|x: usize, y: usize|
            x < self.columns() && y < self.rows() ==> shows(
                world,
                ray_at,
                phase,
                x,
                y,
                #[trigger] self.pixel(x as int, y as int),
            )
    }

    /// A renderer with a black frame of the given size.
    pub fn new(width: usize, height: usize) -> (renderer: Renderer)
        requires
            width * height <= usize::MAX,
        ensures
            renderer.wf(),
            renderer.columns() == width,
            renderer.rows() == height,
            forall|i: int| 0 <= i < width * height ==> #[trigger] renderer.pixels()[i] == 0,
    {
        Renderer { width, height, frame_buffer: vec![0u32; width * height] }
    }

    pub fn width(&self) -> (width: usize)
        ensures
            width == self.columns(),
    {
        self.width
    }

    pub fn height(&self) -> (height: usize)
        ensures
            height == self.rows(),
    {
        self.height
    }

    /// The frame, row by row.
    pub fn frame(&self) -> (frame: &Vec<u32>)
        ensures
            frame@ == self.pixels(),
    {
        &self.frame_buffer
    }

    /// Paints one pixel with the colour that a ray shows in the world. No
    /// other pixel changes.
    pub fn paint_pixel(&mut self, world: &World, x: usize, y: usize, ray: &Ray)
        requires
            old(self).wf(),
            x < old(self).columns(),
            y < old(self).rows(),
        ensures
            final(self).wf(),
            final(self).columns() == old(self).columns(),
            final(self).rows() == old(self).rows(),
            final(self).pixels() == old(self).pixels().update(
                pixel_index(old(self).columns(), x as int, y as int),
                cast(world, ray) as u32,
            ),
            final(self).pixel(x as int, y as int) == cast(world, ray),
    {
        let color = cast_ray(world, ray);
        let len = self.frame_buffer.len();
        proof {
            lemma_pixel_index(self.width as int, self.height as int, x as int, y as int);
            assert(pixel_index(self.width as int, x as int, y as int) < len);
        }
        self.frame_buffer.set(y * self.width + x, color);
    }

    /// Renders the frame of a time: every pixel is overwritten with the
    /// colour that its ray shows in the world. Of the time only the phase
    /// within the camera's cycle is handed to `ray_at`, which is asked once
    /// for each pixel, column by column.
    pub fn render<F: Fn(u64, usize, usize) -> Ray>(
        &mut self,
        world: &World,
        elapsed_ms: u64,
        ray_at: F,
    )
        requires
            old(self).wf(),
            forall|x: usize, y: usize|
                x < old(self).columns() && y < old(self).rows() ==> #[trigger] ray_at.requires(
                    (phase_of(elapsed_ms as int) as u64, x, y),
                ),
        ensures
            final(self).wf(),
            final(self).columns() == old(self).columns(),
            final(self).rows() == old(self).rows(),
            final(self).renders(world, ray_at, phase_of(elapsed_ms as int) as u64),
    {
        let phase = cycle_phase(elapsed_ms);
        let width = self.width;
        let height = self.height;
        proof {
            assert(phase == phase_of(elapsed_ms as int) as u64);
            assert forall|px: usize, py: usize| px < width && py < height implies #[trigger] ray_at.requires(
                (phase, px, py),
            ) by {
                assert(ray_at.requires((phase_of(elapsed_ms as int) as u64, px, py)));
            }
        }
        let mut x: usize = 0;
        while x < width
            invariant
                x <= width,
                phase == phase_of(elapsed_ms as int),
                width == self.width,
                height == self.height,
                self.width == old(self).width,
                self.height == old(self).height,
                self.wf(),
                forall|px: usize, py: usize|
                    px < width && py < height ==> #[trigger] ray_at.requires((phase, px, py)),
                forall|px: usize, py: usize|
                    px < x && py < height ==> shows(
                        world,
                        ray_at,
                        phase,
                        px,
                        py,
                        #[trigger] self.pixel(px as int, py as int),
                    ),
            decreases width - x,
        {
            let mut y: usize = 0;
            while y < height
                invariant
                    x < width,
                    y <= height,
                    phase == phase_of(elapsed_ms as int),
                    width == self.width,
                    height == self.height,
                    self.width == old(self).width,
                    self.height == old(self).height,
                    self.wf(),
                    forall|px: usize, py: usize|
                        px < width && py < height ==> #[trigger] ray_at.requires((phase, px, py)),
                    forall|px: usize, py: usize|
                        (px < x || (px == x && py < y)) && py < height ==> shows(
                            world,
                            ray_at,
                            phase,
                            px,
                            py,
                            #[trigger] self.pixel(px as int, py as int),
                        ),
                decreases height - y,
            {
                let ray = ray_at(phase, x, y);
                let ghost before = *self;
                self.paint_pixel(world, x, y, &ray);
                proof {
                    lemma_pixel_index(width as int, height as int, x as int, y as int);
                    assert(shows(world, ray_at, phase, x, y, self.pixel(x as int, y as int)));
                    assert forall|px: usize, py: usize|
                        (px < x || (px == x && py < y)) && py < height implies shows(
                            world,
                            ray_at,
                            phase,
                            px,
                            py,
                            #[trigger] self.pixel(px as int, py as int),
                        ) by {
                        lemma_pixel_index(width as int, height as int, px as int, py as int);
                        assert(self.pixel(px as int, py as int) == before.pixel(
                            px as int,
                            py as int,
                        ));
                    }
                }
                y += 1;
            }
            x += 1;
        }
    }
}

/// Two frames of the same size that `ray_at` renders of one world at one
/// phase are the same, pixel for pixel, where `ray_at` gives one ray for each
/// pixel.
pub proof fn lemma_same_phase_same_frame<F: Fn(u64, usize, usize) -> Ray>(
    world: &World,
    ray_at: F,
    phase: u64,
    one: Renderer,
    other: Renderer,
)
    requires
        one.wf(),
        other.wf(),
        one.columns() == other.columns(),
        one.rows() == other.rows(),
        gives_one_ray(ray_at),
        one.renders(world, ray_at, phase),
        other.renders(world, ray_at, phase),
    ensures
        one.pixels() == other.pixels(),
{
    let width = one.columns();
    let height = one.rows();
    assert forall|i: int| 0 <= i < one.pixels().len() implies one.pixels()[i] == other.pixels()[i] by {
        assert(width > 0) by (nonlinear_arith)
            requires
                0 <= i < width * height,
                0 <= width,
        ;
        let x = (i % width) as usize;
        let y = (i / width) as usize;
        lemma_fundamental_div_mod(i, width);
        assert(width * (i / width) == (i / width) * width) by (nonlinear_arith);
        assert(0 <= i / width < height) by (nonlinear_arith)
            requires
                0 <= i < width * height,
                0 < width,
                i == width * (i / width) + i % width,
                0 <= i % width < width,
        ;
        assert(pixel_index(width, x as int, y as int) == i);
        assert(shows(world, ray_at, phase, x, y, one.pixel(x as int, y as int)));
        assert(shows(world, ray_at, phase, x, y, other.pixel(x as int, y as int)));
    }
    assert(one.pixels() =~= other.pixels());
}

/// Rendering is determined by the world and the time: two frames of the same
/// size rendered of one world at one time are the same, whatever the frames
/// held before. `ray_at` must give one ray for each pixel at each phase.
pub proof fn law_same_time_same_frame<F: Fn(u64, usize, usize) -> Ray>(
    world: &World,
    ray_at: F,
    elapsed_ms: u64,
    one: Renderer,
    other: Renderer,
)
    requires
        one.wf(),
        other.wf(),
        one.columns() == other.columns(),
        one.rows() == other.rows(),
        gives_one_ray(ray_at),
        one.renders(world, ray_at, phase_of(elapsed_ms as int) as u64),
        other.renders(world, ray_at, phase_of(elapsed_ms as int) as u64),
    ensures
        one.pixels() == other.pixels(),
{
    lemma_same_phase_same_frame(world, ray_at, phase_of(elapsed_ms as int) as u64, one, other);
}

/// Rendering repeats with the camera's cycle: the frame of a time and the
/// frame of the time one cycle later, of the same size and the same world,
/// are the same. `ray_at` must give one ray for each pixel at each phase.
pub proof fn law_cycle_later_same_frame<F: Fn(u64, usize, usize) -> Ray>(
    world: &World,
    ray_at: F,
    elapsed_ms: u64,
    one: Renderer,
    later: Renderer,
)
    requires
        elapsed_ms + CYCLE_MS <= u64::MAX,
        one.wf(),
        later.wf(),
        one.columns() == later.columns(),
        one.rows() == later.rows(),
        gives_one_ray(ray_at),
        one.renders(world, ray_at, phase_of(elapsed_ms as int) as u64),
        later.renders(world, ray_at, phase_of(elapsed_ms + CYCLE_MS) as u64),
    ensures
        one.pixels() == later.pixels(),
{
    law_phase_repeats(elapsed_ms as int);
    lemma_same_phase_same_frame(world, ray_at, phase_of(elapsed_ms as int) as u64, one, later);
}

} // verus!
