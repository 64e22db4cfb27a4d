use ratelite::atlas::{pack_glyph_metrics, RawGlyph};
use ratelite::fx::{Fx, FX_SCALE};
use ratelite::matrix::Matrix3x3;
use ratelite::mesh::Mesh;
use ratelite::vec2::{VecF2, VecI2};

fn fx(i: i32) -> Fx {
    Fx::from_int(i)
}

#[test]
fn fixed_point_basics() {
    assert_eq!(Fx::zero().raw, 0);
    assert_eq!(Fx::one().raw, FX_SCALE);
    assert_eq!(fx(3).add(fx(4)), fx(7));
    assert_eq!(fx(3).sub(fx(4)), fx(-1));
    assert_eq!(fx(3).mul(fx(2)), fx(6));
    assert_eq!(fx(-3).mul(fx(2)), fx(-6));
    assert_eq!(fx(6).div(fx(2)), fx(3));
    assert_eq!(fx(5).neg(), fx(-5));
    assert_eq!(fx(7).trunc(), 7);
    assert_eq!(fx(-7).trunc(), -7);
}

#[test]
fn fixed_point_truncates_toward_zero() {
    // 3/65536 squared is far below one raw unit
    assert_eq!(Fx::from_raw(3).mul(Fx::from_raw(3)).raw, 0);
    // -3 / 2 == -1.5 exactly representable
    assert_eq!(fx(-3).div(fx(2)).raw, -3 * FX_SCALE / 2);
    // -1.5 truncates to -1
    assert_eq!(fx(-3).div(fx(2)).trunc(), -1);
}

#[test]
fn fixed_point_saturates_at_the_rails() {
    assert_eq!(Fx::from_raw(i64::MAX).add(Fx::from_raw(1)).raw, i64::MAX);
    assert_eq!(Fx::from_raw(i64::MIN).sub(Fx::from_raw(1)).raw, i64::MIN);
    assert_eq!(Fx::from_raw(i64::MIN).neg().raw, i64::MAX);
    assert_eq!(Fx::from_raw(i64::MAX).mul(fx(2)).raw, i64::MAX);
    assert_eq!(Fx::from_raw(i64::MIN).mul(fx(2)).raw, i64::MIN);
}

#[test]
fn vectors_operate_componentwise() {
    let a = VecF2::new(fx(1), fx(2));
    let b = VecF2::new(fx(3), fx(5));
    assert_eq!(a.add(b), VecF2::new(fx(4), fx(7)));
    assert_eq!(b.sub(a), VecF2::new(fx(2), fx(3)));
    assert_eq!(a.mul(b), VecF2::new(fx(3), fx(10)));
    assert_eq!(a.neg(), VecF2::new(fx(-1), fx(-2)));
    assert_eq!(VecF2::from_veci2(VecI2::new(8, -9)), VecF2::new(fx(8), fx(-9)));
}

#[test]
fn identity_is_the_multiplication_unit() {
    let m = Matrix3x3::new(fx(1), fx(2), fx(3), fx(4), fx(5), fx(6), fx(7), fx(8), fx(9));
    assert_eq!(Matrix3x3::identity().mul(m), m);
    assert_eq!(m.mul(Matrix3x3::identity()), m);
}

#[test]
fn scale_then_translate_lands_points() {
    let m = Matrix3x3::create_scale((fx(2), fx(3))).mul(
        Matrix3x3::create_translation((fx(10), fx(20))),
    );
    // scale-before-translate: translation column is kept as-is
    let (x, y) = m.transform_point((fx(1), fx(1)));
    assert_eq!(x, fx(2 * 1 + 10));
    assert_eq!(y, fx(3 * 1 + 20));
}

#[test]
fn orthographic_projection_values() {
    let m = Matrix3x3::create_orthographic(fx(2), fx(4), false);
    assert_eq!(m.m11, fx(1));
    assert_eq!(m.m22.raw, FX_SCALE / 2);
    assert_eq!(m.m31, fx(-1));
    assert_eq!(m.m32, fx(-1));
    let centered = Matrix3x3::create_orthographic(fx(2), fx(4), true);
    assert_eq!(centered.m31, fx(0));
}

#[test]
fn determinant_and_inverse_of_a_scale() {
    let m = Matrix3x3::create_scale((fx(2), fx(4)));
    assert_eq!(m.determinant(), fx(8));
    let inv = m.inverse().unwrap();
    assert_eq!(inv.m11.raw, FX_SCALE / 2);
    let singular = Matrix3x3::create_scale((fx(0), fx(4)));
    assert!(singular.inverse().is_none());
}

#[test]
fn std140_layout_pads_columns() {
    let m = Matrix3x3::identity();
    let raw = m.as_std140();
    assert_eq!(raw.len(), 12);
    assert_eq!(raw[0], fx(1));
    assert_eq!(raw[3], fx(0));
    assert_eq!(raw[5], fx(1));
    assert_eq!(raw[10], fx(1));
}

#[test]
fn quad_mesh_geometry() {
    let mesh = Mesh::new_quad(VecF2::new(fx(0), fx(0)), VecF2::new(fx(2), fx(2)));
    assert_eq!(mesh.vertices.len(), 4);
    assert_eq!(mesh.indices, vec![0, 1, 3, 1, 2, 3]);
    assert_eq!(mesh.vertices[0].pos, VecF2::new(fx(1), fx(1)));
    assert_eq!(mesh.vertices[2].pos, VecF2::new(fx(-1), fx(-1)));
    assert_eq!(mesh.bounds.x, fx(-1));
    assert_eq!(mesh.bounds.y, fx(-1));
    assert_eq!(mesh.bounds.width, fx(2));
    assert_eq!(mesh.bounds.height, fx(2));
    assert_eq!(mesh.indices_count(), 6);
}

#[test]
fn bounds_fold_starts_at_the_origin() {
    // all-positive vertices still pull the minimum corner to the origin
    let mesh = Mesh::new_quad(VecF2::new(fx(5), fx(5)), VecF2::new(fx(2), fx(2)));
    assert_eq!(mesh.bounds.x, fx(0));
    assert_eq!(mesh.bounds.y, fx(0));
    assert_eq!(mesh.bounds.width, fx(6));
    assert_eq!(mesh.bounds.height, fx(6));
}

#[test]
fn atlas_packing_places_rows_and_wraps() {
    let glyph = |c: char, w: usize, h: usize| RawGlyph {
        ch: c,
        width: w,
        height: h,
        xmin: 1,
        ymin: -2,
        advance: fx(7),
    };
    // 16-wide atlas: 'a' at (3,3), 'b' at (10,3), 'c' wraps to (3,13)
    let glyphs = vec![glyph('a', 6, 5), glyph('b', 4, 7), glyph('c', 9, 2)];
    let (placements, metrics) = pack_glyph_metrics(16, &glyphs).unwrap();
    assert_eq!(placements.len(), 3);
    assert_eq!((placements[0].x, placements[0].y), (3, 3));
    assert_eq!((placements[1].x, placements[1].y), (10, 3));
    assert_eq!((placements[2].x, placements[2].y), (3, 13));
    assert_eq!(metrics[0].0, 'a');
    assert_eq!(metrics[0].1.size, VecF2::new(fx(6), fx(5)));
    assert_eq!(metrics[0].1.offset, VecF2::new(fx(1), fx(-2)));
    assert_eq!(metrics[0].1.advance, fx(7));
    // uv of 'b': x from 10/16 to 14/16
    assert_eq!(metrics[1].1.uv.pos00.x.raw, 10 * FX_SCALE / 16);
    assert_eq!(metrics[1].1.uv.pos11.x.raw, 14 * FX_SCALE / 16);
}

#[test]
fn atlas_packing_reports_overflow() {
    let big = RawGlyph { ch: 'x', width: 20, height: 20, xmin: 0, ymin: 0, advance: fx(1) };
    assert!(pack_glyph_metrics(16, &vec![big]).is_none());
    // a tall second row that no longer fits
    let wide = RawGlyph { ch: 'w', width: 12, height: 8, xmin: 0, ymin: 0, advance: fx(1) };
    let tall = RawGlyph { ch: 't', width: 12, height: 8, xmin: 0, ymin: 0, advance: fx(1) };
    assert!(pack_glyph_metrics(16, &vec![wide, tall]).is_none());
}
