use voxel_tunnel::ray::{cast_ray, shade, Axis, Probe, Ray, HORIZON};
use voxel_tunnel::renderer::{cycle_phase, Renderer, CYCLE_MS};
use voxel_tunnel::world::{World, ATLAS_LEN, VOLUME};

fn solid_world(block: u8, color: u32) -> World {
    let mut textures = vec![0u32; ATLAS_LEN];
    for texel in textures[block as usize * 768..(block as usize + 1) * 768].iter_mut() {
        *texel = color;
    }
    match World::from_parts(vec![block; VOLUME], textures) {
        Some(world) => world,
        None => panic!("parts are not a world"),
    }
}

/// A ray with one probe along y, at a depth that tells the pixel.
fn ray_of(x: usize, y: usize) -> Ray {
    let probe = Probe {
        reach: 1.0f32.to_bits(),
        depth: (x + 10 * y) as u32,
        x: 0,
        y: 0,
        z: 0,
        fine_x: 0,
        fine_y: 0,
        fine_z: 0,
        fine_xz: 0,
    };
    Ray { along_x: Vec::new(), along_y: vec![probe], along_z: Vec::new(), descending: false }
}

#[test]
fn new_renderer_has_a_black_frame() {
    let renderer = Renderer::new(7, 5);
    assert_eq!(renderer.width(), 7);
    assert_eq!(renderer.height(), 5);
    assert_eq!(renderer.frame().len(), 35);
    assert!(renderer.frame().iter().all(|&pixel| pixel == 0));
    assert_eq!(Renderer::new(0, 9).frame().len(), 0);
    assert_eq!(Renderer::new(9, 0).frame().len(), 0);
}

#[test]
fn render_stores_each_pixel_row_by_row() {
    let world = solid_world(3, 0xFFFFFF);
    let mut renderer = Renderer::new(4, 3);
    renderer.render(&world, 0, |_, x, y| ray_of(x, y));
    let frame = renderer.frame();
    assert_eq!(frame.len(), 12);
    for y in 0..3 {
        for x in 0..4 {
            let light = 255 - (x + 10 * y) as u32;
            assert_eq!(frame[y * 4 + x], light << 16 | light << 8 | light, "pixel ({x}, {y})");
            assert_eq!(frame[y * 4 + x], cast_ray(&world, &ray_of(x, y)));
        }
    }
    assert_eq!(renderer.width(), 4);
    assert_eq!(renderer.height(), 3);
}

#[test]
fn render_overwrites_the_whole_frame() {
    let rock = solid_world(3, 0xFFFFFF);
    let air = World::blank();
    let mut renderer = Renderer::new(5, 4);
    renderer.render(&rock, 17, |_, x, y| ray_of(x, y));
    assert!(renderer.frame().iter().all(|&pixel| pixel != 0));
    renderer.render(&air, 17, |_, x, y| ray_of(x, y));
    assert!(renderer.frame().iter().all(|&pixel| pixel == 0));
}

#[test]
fn render_asks_for_each_pixel_once_column_by_column() {
    let world = World::blank();
    let asked = std::cell::RefCell::new(Vec::new());
    let mut renderer = Renderer::new(3, 2);
    renderer.render(&world, 25000, |phase, x, y| {
        asked.borrow_mut().push((phase, x, y));
        ray_of(x, y)
    });
    // Of the time the closure is told the phase only.
    assert_eq!(
        asked.into_inner(),
        vec![(5000, 0, 0), (5000, 0, 1), (5000, 1, 0), (5000, 1, 1), (5000, 2, 0), (5000, 2, 1)]
    );
}

/// A camera that slides along x with the phase.
fn sliding_ray(phase: u64, x: usize, y: usize) -> Ray {
    let mut ray = ray_of(x, y);
    ray.along_y[0].x = (phase * 64 / CYCLE_MS) as i32 + x as i32;
    ray.along_y[0].z = y as i32;
    ray.along_y[0].y = (x * y) as i32;
    ray.along_y[0].fine_x = (3 * x) as i32;
    ray.along_y[0].fine_z = (5 * y) as i32;
    ray
}

#[test]
fn same_world_and_time_give_the_same_frame() {
    fastrand::seed(31);
    let world = World::new(&vec![true; VOLUME]);
    let mut one = Renderer::new(16, 12);
    let mut other = Renderer::new(16, 12);
    // Whatever the frames held before.
    other.render(&world, 9000, sliding_ray);
    assert!(other.frame().iter().any(|&pixel| pixel != 0));
    one.render(&world, 4321, sliding_ray);
    other.render(&world, 4321, sliding_ray);
    assert_eq!(one.frame(), other.frame());
    one.render(&world, 4321, sliding_ray);
    assert_eq!(one.frame(), other.frame());
    // Another time gives another frame.
    one.render(&world, 9000, sliding_ray);
    assert_ne!(one.frame(), other.frame());
}

#[test]
fn paint_pixel_changes_one_pixel() {
    let world = solid_world(3, 0xFFFFFF);
    let mut renderer = Renderer::new(4, 3);
    renderer.paint_pixel(&world, 2, 1, &ray_of(5, 0));
    let expected = shade(0xFFFFFF, Axis::Y, 5);
    assert_eq!(expected, 0xFAFAFA);
    for y in 0..3 {
        for x in 0..4 {
            let pixel = renderer.frame()[y * 4 + x];
            assert_eq!(pixel, if (x, y) == (2, 1) { expected } else { 0 }, "pixel ({x}, {y})");
        }
    }
    renderer.paint_pixel(&world, 3, 2, &ray_of(0, 0));
    assert_eq!(renderer.frame()[11], 0xFFFFFF);
    assert_eq!(renderer.frame()[6], expected);
    // A ray that shows the sky paints the pixel black.
    renderer.paint_pixel(&World::blank(), 2, 1, &ray_of(5, 0));
    assert_eq!(renderer.frame()[6], 0);
    assert_eq!(renderer.frame()[11], 0xFFFFFF);
}

#[test]
fn phase_wraps_every_ten_seconds() {
    assert_eq!(CYCLE_MS, 10000);
    assert_eq!(cycle_phase(0), 0);
    assert_eq!(cycle_phase(9999), 9999);
    assert_eq!(cycle_phase(10000), 0);
    assert_eq!(cycle_phase(25000), 5000);
    assert_eq!(cycle_phase(123456789), 6789);
    assert_eq!(cycle_phase(u64::MAX), u64::MAX % 10000);
    for t in [0u64, 1, 4321, 9999, 10000, 77777, 1 << 40] {
        assert_eq!(cycle_phase(t), cycle_phase(t + 10000));
    }
}

#[test]
fn frames_a_cycle_apart_are_the_same() {
    fastrand::seed(32);
    let world = World::new(&vec![true; VOLUME]);
    let frame_at = |elapsed: u64| {
        let mut renderer = Renderer::new(8, 6);
        renderer.render(&world, elapsed, sliding_ray);
        renderer.frame().clone()
    };
    assert_eq!(frame_at(1234), frame_at(11234));
    assert_eq!(frame_at(0), frame_at(10000));
    assert_eq!(frame_at(9999), frame_at(1_000_009_999));
    assert_ne!(frame_at(0), frame_at(5000));
    assert!(HORIZON > 0);
}
