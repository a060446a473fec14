use lyzah::fixed::{FX_ONE, div_fx, mul_fx};
use lyzah::instance::Rotation;
use lyzah::matrix::Mat4;
use lyzah::sprite::Sprite;
use lyzah::texture::Extent3d;

fn extent(w: u32, h: u32) -> Extent3d {
    Extent3d { width: w, height: h, depth_or_array_layers: 1 }
}

#[test]
fn fixed_point_multiplication_is_exact_on_integers() {
    assert_eq!(mul_fx(3 * FX_ONE, 2 * FX_ONE), 6 * FX_ONE);
    assert_eq!(mul_fx(-3 * FX_ONE, 2 * FX_ONE), -6 * FX_ONE);
    assert_eq!(mul_fx(FX_ONE / 2, FX_ONE / 2), FX_ONE / 4);
}

#[test]
fn fixed_point_rounds_toward_negative_infinity() {
    assert_eq!(mul_fx(-1, 1), -1);
    assert_eq!(mul_fx(1, 1), 0);
    assert_eq!(div_fx(1, 3), 21845);
    assert_eq!(div_fx(-1, 3), -21846);
}

#[test]
fn identity_transform_yields_identity_matrix() {
    let sprite = Sprite::new(7);
    let raw = sprite.get_raw_instance(&extent(64, 64));
    assert_eq!(raw, Mat4::identity());
}

#[test]
fn position_becomes_translation() {
    let mut sprite = Sprite::new(1);
    sprite.set_position(10 * FX_ONE, -4 * FX_ONE);
    let raw = sprite.get_raw_instance(&extent(64, 64));
    assert_eq!(raw.m30, 10 * FX_ONE);
    assert_eq!(raw.m31, -4 * FX_ONE);
    let expected = Mat4 { m30: 10 * FX_ONE, m31: -4 * FX_ONE, ..Mat4::identity() };
    assert_eq!(raw, expected);
}

#[test]
fn scale_fills_the_diagonal() {
    let mut sprite = Sprite::new(1);
    sprite.set_scale(2 * FX_ONE, 3 * FX_ONE);
    let raw = sprite.get_raw_instance(&extent(16, 16));
    assert_eq!(raw.m00, 2 * FX_ONE);
    assert_eq!(raw.m11, 3 * FX_ONE);
    assert_eq!(raw.m22, FX_ONE);
}

#[test]
fn quarter_turn_swaps_the_axes() {
    let mut sprite = Sprite::new(1);
    sprite.set_rotation(Rotation { cos: 0, sin: FX_ONE });
    let raw = sprite.get_raw_instance(&extent(16, 16));
    assert_eq!(raw.m00, 0);
    assert_eq!(raw.m01, FX_ONE);
    assert_eq!(raw.m10, -FX_ONE);
    assert_eq!(raw.m11, 0);
}

#[test]
fn anchor_shifts_by_texture_extent() {
    let mut sprite = Sprite::new(1);
    sprite.set_anchor(FX_ONE, FX_ONE);
    let raw = sprite.get_raw_instance(&extent(64, 32));
    assert_eq!(raw.m30, -64 * FX_ONE);
    assert_eq!(raw.m31, 32 * FX_ONE);
}

#[test]
fn reads_after_any_mutation_sequence_are_never_stale() {
    let mut sprite = Sprite::new(1);
    sprite.set_position(5 * FX_ONE, 6 * FX_ONE);
    sprite.set_rotation(Rotation { cos: 0, sin: FX_ONE });
    sprite.set_scale(2 * FX_ONE, 2 * FX_ONE);
    sprite.set_rotation(Rotation { cos: FX_ONE, sin: 0 });
    let raw = sprite.get_raw_instance(&extent(8, 8));
    // The last rotation wins; the matrix reflects exactly the latest
    // field values.
    let expected = Mat4 {
        m00: 2 * FX_ONE,
        m11: 2 * FX_ONE,
        m30: 5 * FX_ONE,
        m31: 6 * FX_ONE,
        ..Mat4::identity()
    };
    assert_eq!(raw, expected);
    // And the public fields agree with what was set.
    assert_eq!(sprite.position.x, 5 * FX_ONE);
    assert_eq!(sprite.rotation, Rotation { cos: FX_ONE, sin: 0 });
    assert_eq!(sprite.scale.x, 2 * FX_ONE);
}
