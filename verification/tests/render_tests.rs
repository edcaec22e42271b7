use sinuous::range::BipolarChannelValueRangeMatrix;
use sinuous::range::BooleanRangeMatrix;
use sinuous::range::Range;
use sinuous::range::SpinRangeMatrix;
use sinuous::range::UnipolarRangeMatrix;
use sinuous::numeric::limit_bipolar_unit_i64;
use sinuous::numeric::limit_unipolar_unit_i64;
use sinuous::numeric::UNIT;
use sinuous::render::limit_bipolar_unit_to_u8;
use sinuous::render::limit_unipolar_unit_to_u8;
use sinuous::render::renderDmxBooleanWithRange;
use sinuous::render::renderDmxDouble;
use sinuous::render::renderDmxFloat;
use sinuous::render::renderDmxFloatBipolar;
use sinuous::render::renderDmxFloatBipolarWithRange;
use sinuous::render::renderDmxFloatWithRange;
use sinuous::render::renderDmxIntIndexedWithRange;
use sinuous::render::renderDmxSpinBipolar2ChWithRange;
use sinuous::render::render_int_indexed_strict;

fn r(min: u8, max: u8) -> Range<u8> {
    Range { min, max }
}

#[test]
fn unit_limits_clamp_and_keep_what_is_in_range() {
    assert_eq!(limit_unipolar_unit_i64(-7), 0);
    assert_eq!(limit_unipolar_unit_i64(0), 0);
    assert_eq!(limit_unipolar_unit_i64(250_000), 250_000);
    assert_eq!(limit_unipolar_unit_i64(UNIT), UNIT);
    assert_eq!(limit_unipolar_unit_i64(i64::MAX), UNIT);
    assert_eq!(limit_bipolar_unit_i64(i64::MIN), -UNIT);
    assert_eq!(limit_bipolar_unit_i64(-250_000), -250_000);
    assert_eq!(limit_bipolar_unit_i64(2 * UNIT), UNIT);
}

#[test]
fn unipolar_render_uses_the_full_byte_range() {
    let mut buf = vec![9u8; 4];
    assert_eq!(renderDmxFloat(0, 1, &mut buf), 0);
    assert_eq!(buf, vec![9, 0, 9, 9]);
    assert_eq!(renderDmxFloat(500_000, 1, &mut buf), 127);
    assert_eq!(renderDmxFloat(UNIT, 1, &mut buf), 255);
    assert_eq!(renderDmxFloat(3 * UNIT, 1, &mut buf), 255);
    assert_eq!(renderDmxFloat(-5, 1, &mut buf), 0);
    assert_eq!(renderDmxFloat(999_999, 1, &mut buf), 255);
    assert_eq!(renderDmxFloat(3_907, 1, &mut buf), 1);
    assert_eq!(renderDmxFloat(3_906, 1, &mut buf), 0);
    assert_eq!(buf, vec![9, 0, 9, 9]);
}

#[test]
fn bipolar_render_centres_on_127() {
    let mut buf = vec![0u8; 2];
    assert_eq!(renderDmxFloatBipolar(-UNIT, 0, &mut buf), 0);
    assert_eq!(renderDmxFloatBipolar(0, 0, &mut buf), 127);
    assert_eq!(renderDmxFloatBipolar(UNIT, 0, &mut buf), 255);
    assert_eq!(renderDmxFloatBipolar(-2 * UNIT, 0, &mut buf), 0);
    assert_eq!(renderDmxFloatBipolar(500_000, 1, &mut buf), 191);
    assert_eq!(buf, vec![0, 191]);
}

#[test]
fn unipolar_range_render_maps_ends_exactly_and_interpolates_between() {
    let m = UnipolarRangeMatrix { min: r(0, 5), mid: r(10, 19), max: r(250, 255) };
    let mut buf = vec![0u8; 1];
    assert_eq!(renderDmxFloatWithRange(0, &m, 0, &mut buf), 0);
    assert_eq!(renderDmxFloatWithRange(-1, &m, 0, &mut buf), 0);
    assert_eq!(renderDmxFloatWithRange(UNIT, &m, 0, &mut buf), 250);
    assert_eq!(renderDmxFloatWithRange(1, &m, 0, &mut buf), 10);
    assert_eq!(renderDmxFloatWithRange(500_000, &m, 0, &mut buf), 14);
    assert_eq!(renderDmxFloatWithRange(999_999, &m, 0, &mut buf), 19);
    assert_eq!(buf, vec![19]);
}

#[test]
fn unipolar_range_render_follows_a_reverse_range_downwards() {
    let m = UnipolarRangeMatrix { min: r(255, 255), mid: r(19, 10), max: r(0, 0) };
    let mut buf = vec![0u8; 1];
    assert_eq!(renderDmxFloatWithRange(1, &m, 0, &mut buf), 19);
    assert_eq!(renderDmxFloatWithRange(500_000, &m, 0, &mut buf), 15);
    assert_eq!(renderDmxFloatWithRange(999_999, &m, 0, &mut buf), 10);
    assert_eq!(renderDmxFloatWithRange(0, &m, 0, &mut buf), 255);
    assert_eq!(renderDmxFloatWithRange(UNIT, &m, 0, &mut buf), 0);
}

#[test]
fn bipolar_range_render_maps_the_three_notches_and_both_slopes() {
    let m = BipolarChannelValueRangeMatrix {
        min: r(0, 0),
        neg: r(1, 100),
        mid: r(128, 128),
        pos: r(150, 249),
        max: r(255, 255),
    };
    let mut buf = vec![0u8; 1];
    assert_eq!(renderDmxFloatBipolarWithRange(0, &m, 0, &mut buf), 128);
    assert_eq!(renderDmxFloatBipolarWithRange(-UNIT, &m, 0, &mut buf), 0);
    assert_eq!(renderDmxFloatBipolarWithRange(UNIT, &m, 0, &mut buf), 255);
    assert_eq!(renderDmxFloatBipolarWithRange(-999_999, &m, 0, &mut buf), 1);
    assert_eq!(renderDmxFloatBipolarWithRange(-1, &m, 0, &mut buf), 100);
    assert_eq!(renderDmxFloatBipolarWithRange(-500_000, &m, 0, &mut buf), 51);
    assert_eq!(renderDmxFloatBipolarWithRange(1, &m, 0, &mut buf), 150);
    assert_eq!(renderDmxFloatBipolarWithRange(500_000, &m, 0, &mut buf), 199);
    assert_eq!(renderDmxFloatBipolarWithRange(999_999, &m, 0, &mut buf), 249);
    assert_eq!(renderDmxFloatBipolarWithRange(5 * UNIT, &m, 0, &mut buf), 255);
    assert_eq!(buf, vec![255]);
}

#[test]
fn double_render_is_big_endian() {
    let mut buf = vec![7u8; 4];
    assert_eq!(renderDmxDouble(0, 1, &mut buf), (0, 0));
    assert_eq!(buf, vec![7, 0, 0, 7]);
    assert_eq!(renderDmxDouble(UNIT, 1, &mut buf), (255, 255));
    assert_eq!(renderDmxDouble(500_000, 1, &mut buf), (127, 255));
    assert_eq!(buf, vec![7, 127, 255, 7]);
    assert_eq!(renderDmxDouble(250_000, 2, &mut buf), (63, 255));
    assert_eq!(buf, vec![7, 127, 63, 255]);
}

#[test]
fn indexed_render_out_of_range_writes_zero() {
    let table = vec![r(10, 19), r(20, 29), r(30, 39)];
    let mut buf = vec![77u8; 3];
    assert_eq!(renderDmxIntIndexedWithRange(5, &table, 1, &mut buf), 0);
    assert_eq!(buf, vec![77, 0, 77]);
    assert_eq!(renderDmxIntIndexedWithRange(-1, &table, 1, &mut buf), 0);
    assert_eq!(renderDmxIntIndexedWithRange(3, &table, 1, &mut buf), 0);
}

#[test]
fn indexed_render_in_range_writes_the_first_cell() {
    let table = vec![r(10, 19), r(20, 29), r(30, 39)];
    let mut buf = vec![77u8; 3];
    assert_eq!(renderDmxIntIndexedWithRange(0, &table, 0, &mut buf), 10);
    assert_eq!(renderDmxIntIndexedWithRange(2, &table, 2, &mut buf), 30);
    assert_eq!(buf, vec![10, 77, 30]);
}

#[test]
fn strict_indexed_render_refuses_a_missing_index() {
    let table = vec![r(10, 19), r(20, 29), r(30, 39)];
    let mut buf = vec![77u8; 3];
    assert_eq!(render_int_indexed_strict(5, &table, 1, &mut buf), None);
    assert_eq!(render_int_indexed_strict(-1, &table, 1, &mut buf), None);
    assert_eq!(buf, vec![77, 77, 77]);
    assert_eq!(render_int_indexed_strict(1, &table, 1, &mut buf), Some(20));
    assert_eq!(buf, vec![77, 20, 77]);
}

#[test]
fn boolean_render_picks_the_row() {
    let m = BooleanRangeMatrix { f: r(0, 127), t: r(128, 255) };
    let mut buf = vec![1u8; 2];
    assert_eq!(renderDmxBooleanWithRange(true, &m, 0, &mut buf), 128);
    assert_eq!(renderDmxBooleanWithRange(false, &m, 1, &mut buf), 0);
    assert_eq!(buf, vec![128, 0]);
}

#[test]
fn spin_render_writes_direction_then_speed() {
    let m = SpinRangeMatrix { rev: r(10, 19), stop: r(20, 29), fwd: r(30, 39) };
    let mut buf = vec![1u8; 3];
    assert_eq!(renderDmxSpinBipolar2ChWithRange(0, &m, 0, &mut buf), (20, 0));
    assert_eq!(renderDmxSpinBipolar2ChWithRange(500_000, &m, 0, &mut buf), (30, 127));
    assert_eq!(renderDmxSpinBipolar2ChWithRange(-500_000, &m, 0, &mut buf), (10, 127));
    assert_eq!(renderDmxSpinBipolar2ChWithRange(-UNIT, &m, 1, &mut buf), (10, 255));
    assert_eq!(renderDmxSpinBipolar2ChWithRange(9 * UNIT, &m, 1, &mut buf), (30, 255));
    assert_eq!(buf, vec![10, 30, 255]);
}

#[test]
fn renderers_are_idempotent() {
    let m = SpinRangeMatrix { rev: r(10, 19), stop: r(20, 29), fwd: r(30, 39) };
    let mut once = vec![3u8; 4];
    renderDmxFloat(333_333, 0, &mut once);
    renderDmxSpinBipolar2ChWithRange(-250_000, &m, 1, &mut once);
    let mut twice = once.clone();
    let a = renderDmxFloat(333_333, 0, &mut twice);
    let b = renderDmxSpinBipolar2ChWithRange(-250_000, &m, 1, &mut twice);
    assert_eq!(once, twice);
    assert_eq!(a, once[0]);
    assert_eq!(b, (once[1], once[2]));
}

#[test]
fn bipolar_range_render_follows_reverse_ranges() {
    let m = BipolarChannelValueRangeMatrix {
        min: r(255, 255),
        neg: r(249, 150),
        mid: r(128, 128),
        pos: r(100, 1),
        max: r(0, 0),
    };
    let mut buf = vec![0u8; 1];
    assert_eq!(renderDmxFloatBipolarWithRange(-UNIT, &m, 0, &mut buf), 255);
    assert_eq!(renderDmxFloatBipolarWithRange(-999_999, &m, 0, &mut buf), 249);
    assert_eq!(renderDmxFloatBipolarWithRange(-500_000, &m, 0, &mut buf), 199);
    assert_eq!(renderDmxFloatBipolarWithRange(-1, &m, 0, &mut buf), 150);
    assert_eq!(renderDmxFloatBipolarWithRange(0, &m, 0, &mut buf), 128);
    assert_eq!(renderDmxFloatBipolarWithRange(1, &m, 0, &mut buf), 100);
    assert_eq!(renderDmxFloatBipolarWithRange(500_000, &m, 0, &mut buf), 51);
    assert_eq!(renderDmxFloatBipolarWithRange(999_999, &m, 0, &mut buf), 1);
    assert_eq!(renderDmxFloatBipolarWithRange(UNIT, &m, 0, &mut buf), 0);
}

#[test]
fn unit_values_map_evenly_onto_bytes() {
    assert_eq!(limit_unipolar_unit_to_u8(0), 0);
    assert_eq!(limit_unipolar_unit_to_u8(UNIT), 255);
    assert_eq!(limit_unipolar_unit_to_u8(500_000), 127);
    assert_eq!(limit_unipolar_unit_to_u8(i64::MIN), 0);
    assert_eq!(limit_unipolar_unit_to_u8(i64::MAX), 255);
    assert_eq!(limit_bipolar_unit_to_u8(-UNIT), 0);
    assert_eq!(limit_bipolar_unit_to_u8(0), 127);
    assert_eq!(limit_bipolar_unit_to_u8(UNIT), 255);
    assert_eq!(limit_bipolar_unit_to_u8(-500_000), 63);
    assert_eq!(limit_bipolar_unit_to_u8(i64::MIN), 0);
    let mut last = 0u8;
    let mut n: i64 = 0;
    while n <= UNIT {
        let b = limit_unipolar_unit_to_u8(n);
        assert!(b >= last);
        last = b;
        n += 977;
    }
}
