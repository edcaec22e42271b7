use sinuous::blend::fblend_clobber;
use sinuous::blend::fblend_euclid_abs_max;
use sinuous::blend::fblend_euclid_abs_min;
use sinuous::blend::fblend_euclid_bi_add;
use sinuous::blend::fblend_euclid_bi_subtract;
use sinuous::blend::fblend_euclid_max;
use sinuous::blend::fblend_euclid_mean;
use sinuous::blend::fblend_euclid_min;
use sinuous::blend::fblend_euclid_multiply;
use sinuous::blend::fblend_euclid_uni_add;
use sinuous::blend::fblend_euclid_uni_subtract;
use sinuous::blend::fblend_ring_bi_add;
use sinuous::blend::fblend_ring_bi_mean;
use sinuous::blend::fblend_ring_bi_subtract;
use sinuous::blend::fblend_ring_uni_add;
use sinuous::blend::fblend_ring_uni_mean;
use sinuous::blend::fblend_ring_uni_subtract;
use sinuous::numeric::wrap_torus_bipolar_i64;
use sinuous::numeric::wrap_torus_unipolar_i64;
use sinuous::numeric::UNIT;
use sinuous::profile::AttributeValue;
use sinuous::topo::continuous_euclidian_bipolar;
use sinuous::topo::continuous_euclidian_unipolar;
use sinuous::topo::continuous_ring_bipolar;
use sinuous::topo::continuous_ring_unipolar;
use sinuous::topo::discrete_array;
use sinuous::topo::discrete_ring;
use sinuous::topo::BlendOp;

#[test]
fn unipolar_wrap_prefers_the_upper_end_above_the_ring() {
    assert_eq!(wrap_torus_unipolar_i64(2 * UNIT), UNIT);
    assert_eq!(wrap_torus_unipolar_i64(3 * UNIT), UNIT);
    assert_eq!(wrap_torus_unipolar_i64(UNIT), UNIT);
    assert_eq!(wrap_torus_unipolar_i64(0), 0);
    assert_eq!(wrap_torus_unipolar_i64(333_333), 333_333);
    assert_eq!(wrap_torus_unipolar_i64(1_250_000), 250_000);
    assert_eq!(wrap_torus_unipolar_i64(UNIT + 1), 1);
}

#[test]
fn unipolar_wrap_brings_negative_values_into_the_ring() {
    assert_eq!(wrap_torus_unipolar_i64(-250_000), 750_000);
    assert_eq!(wrap_torus_unipolar_i64(-1), 999_999);
    assert_eq!(wrap_torus_unipolar_i64(-UNIT), 0);
    assert_eq!(wrap_torus_unipolar_i64(-3 * UNIT), 0);
    assert_eq!(wrap_torus_unipolar_i64(-2_250_000), 750_000);
    assert_eq!(wrap_torus_unipolar_i64(i64::MIN), 224_192);
    assert_eq!(wrap_torus_unipolar_i64(i64::MAX), 775_807);
}

#[test]
fn bipolar_wrap_prefers_the_upper_end_above_the_ring() {
    assert_eq!(wrap_torus_bipolar_i64(3 * UNIT), UNIT);
    assert_eq!(wrap_torus_bipolar_i64(5 * UNIT), UNIT);
    assert_eq!(wrap_torus_bipolar_i64(2 * UNIT), 0);
    assert_eq!(wrap_torus_bipolar_i64(UNIT), UNIT);
    assert_eq!(wrap_torus_bipolar_i64(-UNIT), -UNIT);
    assert_eq!(wrap_torus_bipolar_i64(1_500_000), -500_000);
    assert_eq!(wrap_torus_bipolar_i64(-1_500_000), 500_000);
    assert_eq!(wrap_torus_bipolar_i64(-3 * UNIT), -UNIT);
    assert_eq!(wrap_torus_bipolar_i64(-2 * UNIT), 0);
    assert_eq!(wrap_torus_bipolar_i64(-123_456), -123_456);
}

#[test]
fn continuous_wraps_are_idempotent_on_samples() {
    let mut n: i64 = -5 * UNIT;
    while n <= 5 * UNIT {
        let u = wrap_torus_unipolar_i64(n);
        assert!(0 <= u && u <= UNIT);
        assert_eq!(wrap_torus_unipolar_i64(u), u);
        assert_eq!((u - n).rem_euclid(UNIT), 0);
        let b = wrap_torus_bipolar_i64(n);
        assert!(-UNIT <= b && b <= UNIT);
        assert_eq!(wrap_torus_bipolar_i64(b), b);
        assert_eq!((b - n).rem_euclid(2 * UNIT), 0);
        n += 125_000;
    }
}

#[test]
fn continuous_choosers_pick_an_operand() {
    assert_eq!(fblend_clobber(7, 9), 7);
    assert_eq!(fblend_euclid_max(-300_000, 200_000), 200_000);
    assert_eq!(fblend_euclid_min(-300_000, 200_000), -300_000);
    assert_eq!(fblend_euclid_abs_max(-300_000, 200_000), -300_000);
    assert_eq!(fblend_euclid_abs_max(-300_000, 300_000), -300_000);
    assert_eq!(fblend_euclid_abs_min(-300_000, 200_000), 200_000);
    assert_eq!(fblend_euclid_abs_min(-300_000, 300_000), 300_000);
}

#[test]
fn continuous_sums_clamp_or_wrap() {
    assert_eq!(fblend_euclid_uni_add(700_000, 600_000), UNIT);
    assert_eq!(fblend_euclid_uni_add(300_000, 600_000), 900_000);
    assert_eq!(fblend_euclid_uni_subtract(300_000, 600_000), 0);
    assert_eq!(fblend_euclid_bi_add(700_000, 600_000), UNIT);
    assert_eq!(fblend_euclid_bi_subtract(-700_000, 600_000), -UNIT);
    assert_eq!(fblend_euclid_bi_subtract(300_000, 600_000), -300_000);
    assert_eq!(fblend_ring_uni_add(700_000, 600_000), 300_000);
    assert_eq!(fblend_ring_uni_add(400_000, 600_000), UNIT);
    assert_eq!(fblend_ring_uni_subtract(300_000, 600_000), 700_000);
    assert_eq!(fblend_ring_bi_add(700_000, 600_000), -700_000);
    assert_eq!(fblend_ring_bi_subtract(-700_000, 600_000), 700_000);
    assert_eq!(fblend_euclid_uni_add(i64::MAX, i64::MAX), UNIT);
    assert_eq!(fblend_ring_bi_add(i64::MAX, i64::MAX), -448_386);
}

#[test]
fn continuous_mean_and_product_round_to_the_nearest_millionth() {
    assert_eq!(fblend_euclid_mean(250_000, 750_000), 500_000);
    assert_eq!(fblend_euclid_mean(1, 2), 2);
    assert_eq!(fblend_euclid_mean(-1, -2), -2);
    assert_eq!(fblend_euclid_mean(i64::MAX, i64::MAX), i64::MAX);
    assert_eq!(fblend_euclid_multiply(500_000, 500_000), 250_000);
    assert_eq!(fblend_euclid_multiply(-500_000, 500_000), -250_000);
    assert_eq!(fblend_euclid_multiply(-500_000, -500_000), 250_000);
    assert_eq!(fblend_euclid_multiply(UNIT, 123_456), 123_456);
    assert_eq!(fblend_euclid_multiply(1, 1), 0);
    assert_eq!(fblend_euclid_multiply(1_000, 500), 1);
    assert_eq!(fblend_euclid_multiply(-1_000, 500), -1);
    assert_eq!(fblend_euclid_multiply(1_000, 499), 0);
    assert_eq!(fblend_euclid_multiply(0, i64::MIN), 0);
}

#[test]
fn continuous_product_saturates_at_the_carrier() {
    assert_eq!(fblend_euclid_multiply(i64::MAX, i64::MAX), i64::MAX);
    assert_eq!(fblend_euclid_multiply(i64::MIN, i64::MAX), i64::MIN);
    assert_eq!(fblend_euclid_multiply(i64::MIN, i64::MIN), i64::MAX);
    assert_eq!(fblend_euclid_multiply(i64::MAX, UNIT), i64::MAX);
}

#[test]
fn ring_means_take_the_shorter_way() {
    assert_eq!(fblend_ring_uni_mean(200_000, 900_000), 50_000);
    assert_eq!(fblend_ring_uni_mean(900_000, 200_000), 50_000);
    assert_eq!(fblend_ring_uni_mean(100_000, 900_000), UNIT);
    assert_eq!(fblend_ring_uni_mean(250_000, 750_000), 500_000);
    assert_eq!(fblend_ring_uni_mean(300_000, 500_000), 400_000);
    assert_eq!(fblend_ring_uni_mean(1_300_000, 500_000), 400_000);
    assert_eq!(fblend_ring_bi_mean(-900_000, 900_000), UNIT);
    assert_eq!(fblend_ring_bi_mean(-800_000, 900_000), -950_000);
    assert_eq!(fblend_ring_bi_mean(-500_000, 500_000), 0);
    assert_eq!(fblend_ring_bi_mean(-200_000, 400_000), 100_000);
}

#[test]
fn continuous_topologies_bind_their_blenders() {
    let eu = continuous_euclidian_unipolar();
    let eb = continuous_euclidian_bipolar();
    let ru = continuous_ring_unipolar();
    let rb = continuous_ring_bipolar();
    assert!(eu.continuous && eu.blend_encouraged && eu.blend_meaningful);
    assert_eq!(eu.blend_continuous(BlendOp::Add, 700_000, 600_000), Some(UNIT));
    assert_eq!(eu.blend_continuous(BlendOp::AddModulus, 700_000, 600_000), Some(300_000));
    assert_eq!(ru.blend_continuous(BlendOp::Add, 700_000, 600_000), Some(300_000));
    assert_eq!(eb.blend_continuous(BlendOp::Subtract, -700_000, 600_000), Some(-UNIT));
    assert_eq!(eb.blend_continuous(BlendOp::SubtractModulus, -700_000, 600_000), Some(700_000));
    assert_eq!(rb.blend_continuous(BlendOp::Subtract, -700_000, 600_000), Some(700_000));
    assert_eq!(eu.blend_continuous(BlendOp::Median, 200_000, 900_000), Some(550_000));
    assert_eq!(ru.blend_continuous(BlendOp::Median, 200_000, 900_000), Some(50_000));
    assert_eq!(rb.blend_continuous(BlendOp::Median, -800_000, 900_000), Some(-950_000));
    assert_eq!(eb.blend_continuous(BlendOp::Median, -800_000, 900_000), Some(50_000));
    assert_eq!(eu.blend_continuous(BlendOp::Multiply, 500_000, 500_000), Some(250_000));
    assert_eq!(rb.blend_continuous(BlendOp::AbsMax, -900_000, 300_000), Some(300_000));
    assert_eq!(rb.blend_continuous(BlendOp::AbsMin, -900_000, 300_000), Some(-900_000));
    assert_eq!(ru.blend_continuous(BlendOp::Clobber, 1, 2), Some(1));
    assert_eq!(discrete_ring().blend_continuous(BlendOp::Add, 1, 2), None);
    assert_eq!(discrete_array().blend_continuous(BlendOp::Clobber, 1, 2), None);
}

#[test]
fn values_blend_only_with_their_own_kind() {
    let eu = continuous_euclidian_unipolar();
    let ring = discrete_ring();
    assert_eq!(
        eu.blend(
            BlendOp::Add,
            AttributeValue::Continuous(700_000),
            AttributeValue::Continuous(600_000),
            0,
            0
        ),
        Some(AttributeValue::Continuous(UNIT))
    );
    assert_eq!(
        ring.blend(BlendOp::Add, AttributeValue::Discrete(200), AttributeValue::Discrete(100), 0, 255),
        Some(AttributeValue::Discrete(44))
    );
    assert_eq!(
        eu.blend(BlendOp::Add, AttributeValue::Continuous(1), AttributeValue::Discrete(1), 0, 255),
        None
    );
    assert_eq!(
        eu.blend(BlendOp::Add, AttributeValue::Discrete(1), AttributeValue::Discrete(1), 0, 255),
        None
    );
    assert_eq!(
        ring.blend(BlendOp::Add, AttributeValue::Continuous(1), AttributeValue::Continuous(1), 0, 255),
        None
    );
    assert_eq!(
        ring.blend(BlendOp::Multiply, AttributeValue::Discrete(2), AttributeValue::Discrete(3), 0, 255),
        None
    );
}
