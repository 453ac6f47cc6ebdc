use voxel_tunnel::texture::{
    brightness_at, grass_line_at, pigment_at, ring_level_at, roll, scale_color, texel, Draws,
    Material, BARK, BRICK, DIRT, GRASS, HEARTWOOD, LEAF, MAX_BRIGHTNESS, MORTAR, STONE, WATER,
};

fn draws(hold: u8, noise: u32, ring: u32, coin: bool) -> Draws {
    Draws { hold, noise, ring, coin }
}

const CALM: Draws = Draws { hold: 0, noise: 0, ring: 0, coin: false };

#[test]
fn materials_by_block_type() {
    assert!(matches!(Material::of(1), Material::Grass));
    assert!(matches!(Material::of(4), Material::Stone));
    assert!(matches!(Material::of(5), Material::Brick));
    assert!(matches!(Material::of(7), Material::Log));
    assert!(matches!(Material::of(8), Material::Leaves));
    assert!(matches!(Material::of(9), Material::Water));
    for block in [0u8, 2, 3, 6, 10, 11, 12, 13, 14, 15, 16, 200] {
        assert!(matches!(Material::of(block), Material::Dirt), "block {block}");
    }
}

#[test]
fn dirt_at_full_brightness_is_its_pigment() {
    let t = texel(2, 0, 0, 300, &CALM);
    assert_eq!(t.color, 0x966C4A);
    assert_eq!(t.brightness, 255);
}

#[test]
fn noise_dims_every_channel() {
    let t = texel(2, 5, 9, 255, &draws(0, 95, 0, false));
    assert_eq!(t.brightness, 160);
    assert_eq!(t.color, 0x5E432E);
}

#[test]
fn rows_from_32_on_are_half_lit() {
    let lit = texel(2, 3, 31, 255, &CALM);
    let half = texel(2, 3, 32, 255, &CALM);
    assert_eq!(lit.color, 0x966C4A);
    assert_eq!(half.color, 0x4A3524);
    // The next texel inherits the brightness before it was halved.
    assert_eq!(half.brightness, 255);
}

#[test]
fn stone_holds_the_brightness_before_it() {
    for hold in [1u8, 2] {
        let t = texel(4, 6, 6, 200, &draws(hold, 10, 0, false));
        assert_eq!(t.brightness, 200);
        assert_eq!(t.color, 0x636363);
    }
}

#[test]
fn stone_redraws_when_the_hold_is_zero() {
    let t = texel(4, 6, 6, 200, &draws(0, 10, 0, false));
    assert_eq!(t.brightness, 245);
    assert_eq!(t.color, 0x7A7A7A);
}

#[test]
fn other_materials_never_hold() {
    for block in [1u8, 2, 5, 7, 8, 9] {
        let one = texel(block, 4, 20, 160, &draws(2, 10, 0, false));
        let other = texel(block, 4, 20, 382, &draws(2, 10, 0, false));
        assert_eq!(one.color, other.color, "block {block}");
        assert_eq!(one.brightness, other.brightness, "block {block}");
    }
}

#[test]
fn brick_has_mortar_rows_and_staggered_joints() {
    assert_eq!(texel(5, 0, 0, 255, &CALM).color, MORTAR);
    assert_eq!(texel(5, 3, 4, 255, &CALM).color, MORTAR);
    assert_eq!(texel(5, 0, 1, 255, &CALM).color, MORTAR);
    assert_eq!(texel(5, 8, 2, 255, &CALM).color, MORTAR);
    assert_eq!(texel(5, 4, 5, 255, &CALM).color, MORTAR);
    assert_eq!(texel(5, 12, 6, 255, &CALM).color, MORTAR);
    assert_eq!(texel(5, 1, 1, 255, &CALM).color, BRICK);
    assert_eq!(texel(5, 4, 1, 255, &CALM).color, BRICK);
    assert_eq!(texel(5, 0, 5, 255, &CALM).color, BRICK);
}

#[test]
fn grass_line_is_jagged() {
    let expected = [18u32, 19, 21, 21, 19, 18, 18, 20, 20, 21, 19, 19, 21, 20, 20, 18];
    for x in 0..16u32 {
        assert_eq!(grass_line_at(x), expected[x as usize], "column {x}");
    }
}

#[test]
fn grass_caps_the_top_and_shades_the_row_below() {
    assert_eq!(texel(1, 0, 0, 255, &CALM).color, GRASS);
    assert_eq!(texel(1, 0, 17, 255, &CALM).color, GRASS);
    let edge = texel(1, 0, 18, 255, &CALM);
    assert_eq!(edge.brightness, 170);
    assert_eq!(edge.color, 0x644831);
    let below = texel(1, 0, 19, 255, &CALM);
    assert_eq!(below.brightness, 255);
    assert_eq!(below.color, DIRT);
    // Column 2 has the deepest cap.
    assert_eq!(texel(1, 2, 20, 255, &CALM).color, GRASS);
    assert_eq!(texel(1, 2, 21, 255, &CALM).brightness, 170);
    let noisy = texel(1, 3, 2, 200, &draws(0, 5, 0, false));
    assert_eq!(noisy.brightness, 250);
    assert_eq!(noisy.color, 0x67A63E);
}

#[test]
fn log_rings_step_through_three_levels() {
    assert_eq!(ring_level_at(7, 7), 0);
    assert_eq!(ring_level_at(8, 7), 1);
    assert_eq!(ring_level_at(9, 7), 2);
    assert_eq!(ring_level_at(10, 7), 0);
    // Left of the centre the distance is one more than the offset.
    assert_eq!(ring_level_at(6, 7), 2);
    assert_eq!(ring_level_at(5, 7), 0);
    assert_eq!(ring_level_at(3, 7), 2);
    assert_eq!(ring_level_at(1, 1), 1);
    assert_eq!(ring_level_at(7, 39), 0);
    assert_eq!(ring_level_at(7, 3), 2);
}

#[test]
fn log_cut_face_is_heartwood_lit_by_its_ring() {
    let centre = texel(7, 7, 7, 255, &draws(0, 40, 0, false));
    assert_eq!(centre.brightness, 196);
    assert_eq!(centre.color, 0x90744B);
    let corner = texel(7, 1, 1, 255, &draws(0, 40, 0, false));
    assert_eq!(corner.brightness, 228);
    assert_eq!(corner.color, 0xA88757);
    let bright = texel(7, 3, 7, 255, &draws(0, 40, 0, false));
    assert_eq!(bright.brightness, 260);
    assert_eq!(bright.color, 0xBF9A63);
    let dim = texel(7, 7, 7, 255, &draws(0, 40, 31, false));
    assert_eq!(dim.brightness, 165);
    let half = texel(7, 7, 39, 255, &CALM);
    assert_eq!(half.brightness, 196);
    assert_eq!(half.color, 0x483A25);
}

#[test]
fn log_bark_surrounds_the_cut_face() {
    for (x, y) in [(0u32, 0u32), (15, 7), (7, 0), (7, 15), (7, 16), (7, 31), (7, 32), (7, 47), (0, 40)]
    {
        assert_eq!(pigment_at(Material::Log, x, y, &CALM), BARK, "({x}, {y})");
    }
    for (x, y) in [(1u32, 1u32), (14, 14), (7, 33), (14, 46)] {
        assert_eq!(pigment_at(Material::Log, x, y, &CALM), HEARTWOOD, "({x}, {y})");
    }
}

#[test]
fn log_bark_bends_its_brightness_on_a_coin() {
    let plain = texel(7, 0, 0, 255, &CALM);
    assert_eq!(plain.color, BARK);
    assert_eq!(plain.brightness, 255);
    let up = texel(7, 0, 0, 255, &draws(0, 0, 0, true));
    assert_eq!(up.brightness, 382);
    assert_eq!(up.brightness, MAX_BRIGHTNESS);
    assert_eq!(up.color, 0x9A7A49);
    let down = texel(7, 15, 0, 255, &draws(0, 0, 0, true));
    assert_eq!(down.brightness, 127);
    assert_eq!(down.color, 0x332818);
}

#[test]
fn leaves_have_gaps() {
    assert_eq!(texel(8, 4, 4, 255, &CALM).color, LEAF);
    assert_eq!(texel(8, 4, 4, 255, &draws(0, 0, 0, true)).color, 0);
    assert_eq!(texel(8, 4, 40, 255, &draws(0, 50, 0, true)).color, 0);
    assert_eq!(texel(8, 4, 40, 255, &CALM).color, 0x276C1B);
}

#[test]
fn water_and_stone_pigments() {
    assert_eq!(texel(9, 0, 0, 255, &CALM).color, WATER);
    assert_eq!(texel(4, 0, 0, 255, &CALM).color, STONE);
    assert_eq!(pigment_at(Material::Water, 3, 3, &CALM), 0x4040FF);
    assert_eq!(pigment_at(Material::Stone, 3, 3, &CALM), 0x7F7F7F);
}

#[test]
fn brightness_at_agrees_with_texel() {
    assert_eq!(brightness_at(Material::Stone, 1, 1, 321, &draws(1, 7, 0, false)), 321);
    assert_eq!(brightness_at(Material::Stone, 1, 1, 321, &draws(0, 7, 0, false)), 248);
    assert_eq!(brightness_at(Material::Grass, 1, 19, 321, &draws(0, 0, 0, false)), 170);
    // Four from the centre on both axes: the second level, 32 above the first.
    assert_eq!(brightness_at(Material::Log, 4, 4, 321, &draws(0, 0, 3, false)), 225);
    assert_eq!(brightness_at(Material::Log, 7, 7, 321, &draws(0, 0, 3, false)), 193);
}

#[test]
fn scale_color_rounds_down() {
    assert_eq!(scale_color(0xFFFFFF, 255), 0xFFFFFF);
    assert_eq!(scale_color(0xFFFFFF, 0), 0);
    assert_eq!(scale_color(0x010101, 254), 0);
    assert_eq!(scale_color(0x966C4A, 160), 0x5E432E);
    assert_eq!(scale_color(0x675231, 382), 0x9A7A49);
}

#[test]
fn rolls_stay_in_range_and_vary() {
    fastrand::seed(11);
    let mut noises = std::collections::BTreeSet::new();
    let mut holds = std::collections::BTreeSet::new();
    let mut rings = std::collections::BTreeSet::new();
    let mut coins = std::collections::BTreeSet::new();
    for _ in 0..2000 {
        let stone = roll(4, 3, 3);
        assert!(stone.hold < 3 && stone.noise < 96);
        assert!(stone.ring == 0 && !stone.coin);
        if stone.hold != 0 {
            assert_eq!(stone.noise, 0);
        }
        holds.insert(stone.hold);
        let dirt = roll(2, 3, 3);
        assert!(dirt.hold == 0 && dirt.noise < 96 && dirt.ring == 0 && !dirt.coin);
        noises.insert(dirt.noise);
        let ring = roll(7, 7, 7);
        assert!(ring.ring < 32 && !ring.coin);
        rings.insert(ring.ring);
        let bark = roll(7, 0, 0);
        assert_eq!(bark.ring, 0);
        coins.insert(bark.coin);
        let leaf = roll(8, 0, 0);
        assert_eq!(leaf.ring, 0);
        coins.insert(leaf.coin);
    }
    assert_eq!(holds.len(), 3);
    assert_eq!(noises.len(), 96);
    assert_eq!(rings.len(), 32);
    assert_eq!(coins.len(), 2);
}
