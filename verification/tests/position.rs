use tm_mumble_link::position::{position_near_zero, vec_flip_z, MPos};

fn bits(v: [f32; 3]) -> [u32; 3] {
    [v[0].to_bits(), v[1].to_bits(), v[2].to_bits()]
}

fn numbers(v: [u32; 3]) -> [f32; 3] {
    [f32::from_bits(v[0]), f32::from_bits(v[1]), f32::from_bits(v[2])]
}

#[test]
fn the_sentinel_is_near_the_origin_and_faces_down_z() {
    let m = position_near_zero();
    assert_eq!(numbers(m.pos), [0.005, 0.005, 0.005]);
    assert_eq!(numbers(m.dir), [0.0, 0.0, -1.0]);
    assert_eq!(numbers(m.up), [0.0, 1.0, 0.0]);
}

#[test]
fn new_keeps_the_three_vectors() {
    let m = MPos::new([1, 2, 3], [4, 5, 6], [7, 8, 9]);
    assert_eq!(m.pos, [1, 2, 3]);
    assert_eq!(m.dir, [4, 5, 6]);
    assert_eq!(m.up, [7, 8, 9]);
}

#[test]
fn example_repeats_one_coordinate() {
    let x = 1.0f32.to_bits();
    let m = MPos::example(x);
    assert_eq!(m, MPos::new([x, x, x], [x, x, x], [x, x, x]));
}

#[test]
fn flipping_z_negates_the_third_coordinate() {
    assert_eq!(numbers(vec_flip_z(bits([1.0, 2.0, 3.0]))), [1.0, 2.0, -3.0]);
    assert_eq!(numbers(vec_flip_z(bits([1.0, 2.0, -3.0]))), [1.0, 2.0, 3.0]);
    assert_eq!(vec_flip_z(bits([0.0, 0.0, 0.0])), bits([0.0, 0.0, -0.0]));
}

#[test]
fn a_scaled_translation_is_mirrored_in_z() {
    let s = 1.0f32 / 32.0;
    let scaled = bits([s * 1.0, s * 2.0, s * 3.0]);
    let m = MPos::new(scaled, bits([0.0, 0.0, 1.0]), bits([0.0, 1.0, 0.0])).mirror_z();
    assert_eq!(numbers(m.pos), [s * 1.0, s * 2.0, -(s * 3.0)]);
    assert_eq!(numbers(m.dir), [0.0, 0.0, -1.0]);
    assert_eq!(numbers(m.up), [0.0, 1.0, 0.0]);
}

#[test]
fn mirroring_twice_gives_the_position_back() {
    let m = MPos::new([1, 2, 3], [4, 5, 0x8000_0006], [7, 8, 0x7FC0_0000]);
    assert_eq!(m.mirror_z().mirror_z(), m);
}
