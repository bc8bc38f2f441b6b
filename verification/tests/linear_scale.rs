use scales::convert::{ToFloat, ToInt};
use scales::converter::Converter;
use scales::linear::{DynamicLinearScale, FixedBounds, LinearScale};
use scales::value::Val;
use scales::Scale;

#[test]
fn test_linear_to_rel_f64() {
    let min = Val::of_int(0);
    let max = Val::of_int(100);
    let scale = LinearScale::new(min, max);
    assert_eq!(scale.to_relative(Val::of_int(0)), Val::of_int(0));
    assert_eq!(scale.to_relative(Val::of_int(100)), Val::of_int(1));
    assert_eq!(scale.to_relative(Val::of_int(10)), Val::ratio(1, 10));
    assert_eq!(scale.to_relative(Val::of_int(50)), Val::ratio(1, 2));
    assert_eq!(scale.to_relative(Val::of_int(90)), Val::ratio(9, 10));
}

#[test]
fn test_linear_to_abs_f64() {
    let min = Val::of_int(0);
    let max = Val::of_int(100);
    let scale = LinearScale::new(min, max);
    assert_eq!(scale.to_absolute(Val::of_int(0)), Val::of_int(0));
    assert_eq!(scale.to_absolute(Val::of_int(1)), Val::of_int(100));
    assert_eq!(scale.to_absolute(Val::ratio(1, 10)), Val::of_int(10));
    assert_eq!(scale.to_absolute(Val::ratio(1, 2)), Val::of_int(50));
    assert_eq!(scale.to_absolute(Val::ratio(9, 10)), Val::of_int(90));
}

#[test]
fn test_linear_to_rel_f32() {
    let min = Val::of_int(0);
    let max = Val::of_int(100);
    let scale = LinearScale::new(min, max);
    assert_eq!(scale.to_relative(Val::of_int(0)), Val::of_int(0));
    assert_eq!(scale.to_relative(Val::of_int(100)), Val::of_int(1));
    assert_eq!(scale.to_relative(Val::of_int(10)), Val::ratio(1, 10));
    assert_eq!(scale.to_relative(Val::of_int(50)), Val::ratio(1, 2));
    assert_eq!(scale.to_relative(Val::of_int(90)), Val::ratio(9, 10));
}

#[test]
fn test_linear_to_abs_f32() {
    let min = Val::of_int(0);
    let max = Val::of_int(100);
    let scale = LinearScale::new(min, max);
    assert_eq!(scale.to_absolute(Val::of_int(0)), Val::of_int(0));
    assert_eq!(scale.to_absolute(Val::of_int(1)), Val::of_int(100));
    assert_eq!(scale.to_absolute(Val::ratio(1, 10)), Val::of_int(10));
    assert_eq!(scale.to_absolute(Val::ratio(1, 2)), Val::of_int(50));
    assert_eq!(scale.to_absolute(Val::ratio(9, 10)), Val::of_int(90));
}

#[test]
fn test_linear_scale() {
    let scale_a = LinearScale::new(Val::of_int(0), Val::of_int(100));
    let scale_b = LinearScale::new(Val::of_int(-1), Val::of_int(1));

    assert_eq!((&scale_a, &scale_b).convert(Val::of_int(25)), Val::ratio(-1, 2));
    assert_eq!((&scale_b, &scale_a).convert(Val::ratio(1, 2)), Val::of_int(75));
}

#[test]
fn test_integral_linear_scale() {
    let a_min: Val = 0usize.to_float();
    let a_max: Val = 100usize.to_float();
    let scale_a = LinearScale::new(a_min, a_max);
    let twenty: Val = 20usize.to_float();
    assert_eq!(scale_a.to_relative(twenty), Val::ratio(1, 5));
    let ninety: usize = scale_a.to_absolute(Val::ratio(9, 10)).to_int();
    assert_eq!(ninety, 90);

    let scale_b = LinearScale::new(Val::of_int(-10), Val::of_int(10));
    assert_eq!(scale_b.to_relative(Val::of_int(5)), Val::ratio(3, 4));
    assert_eq!(scale_b.to_absolute(Val::ratio(3, 4)), Val::of_int(5));

    let seventy_five: Val = 75usize.to_float();
    assert_eq!((&scale_a, &scale_b).convert(seventy_five), Val::of_int(5));
    let back: usize = (&scale_b, &scale_a).convert(Val::of_int(-5)).to_int();
    assert_eq!(back, 25);
}

#[test]
fn test_out_of_range() {
    let scale = LinearScale::new(Val::of_int(0), Val::of_int(100));
    assert_eq!(scale.to_relative(Val::of_int(-100)), Val::of_int(-1));
    assert_eq!(scale.to_relative(Val::of_int(200)), Val::of_int(2));
    assert_eq!(scale.to_clamped_relative(Val::of_int(-100)), Val::of_int(0));
    assert_eq!(scale.to_clamped_relative(Val::of_int(200)), Val::of_int(1));

    assert_eq!(scale.to_absolute(Val::of_int(-1)), Val::of_int(-100));
    assert_eq!(scale.to_absolute(Val::of_int(2)), Val::of_int(200));
    assert_eq!(scale.to_clamped_absolute(Val::of_int(-1)), Val::of_int(0));
    assert_eq!(scale.to_clamped_absolute(Val::of_int(2)), Val::of_int(100));
}

#[test]
fn test_inverted() {
    let scale = LinearScale::inverted(Val::of_int(0), Val::of_int(100));

    assert_eq!(scale.to_relative(Val::of_int(0)), Val::of_int(1));
    assert_eq!(scale.to_relative(Val::of_int(100)), Val::of_int(0));
    assert_eq!(scale.to_relative(Val::of_int(10)), Val::ratio(9, 10));
    assert_eq!(scale.to_relative(Val::of_int(50)), Val::ratio(1, 2));
    assert_eq!(scale.to_relative(Val::of_int(90)), Val::ratio(1, 10));

    assert_eq!(scale.to_absolute(Val::of_int(0)), Val::of_int(100));
    assert_eq!(scale.to_absolute(Val::of_int(1)), Val::of_int(0));
    assert_eq!(scale.to_absolute(Val::ratio(1, 10)), Val::of_int(90));
    assert_eq!(scale.to_absolute(Val::ratio(1, 2)), Val::of_int(50));
    assert_eq!(scale.to_absolute(Val::ratio(9, 10)), Val::of_int(10));
}

#[test]
fn test_dynamic_bounds_not_swapped() {
    // Regression guard: each accessor must answer from its own lookup, and
    // the range must come from both, so min() != max() whenever the two
    // lookups differ.
    let bounds = FixedBounds { min: Val::of_int(3), max: Val::of_int(9) };
    let scale = DynamicLinearScale::new(bounds);
    assert_eq!(scale.min(), Val::of_int(3));
    assert_eq!(scale.max(), Val::of_int(9));
    assert!(scale.min() != scale.max());
    assert_eq!(scale.to_relative(Val::of_int(6)), Val::ratio(1, 2));
    assert_eq!(scale.to_absolute(Val::of_int(1)), Val::of_int(9));
    assert_eq!(scale.to_absolute(Val::of_int(0)), Val::of_int(3));
}

#[test]
fn test_dynamic_inverted() {
    let bounds = FixedBounds { min: Val::of_int(0), max: Val::of_int(100) };
    let scale = DynamicLinearScale::inverted(bounds);
    assert_eq!(scale.to_relative(Val::of_int(0)), Val::of_int(1));
    assert_eq!(scale.to_relative(Val::of_int(100)), Val::of_int(0));
    assert_eq!(scale.to_absolute(Val::ratio(1, 10)), Val::of_int(90));
}

#[test]
fn test_zero_range_propagates() {
    // An empty range is not special-cased: the division yields the same
    // special values floating-point arithmetic would produce.
    let scale = LinearScale::new(Val::of_int(5), Val::of_int(5));
    assert_eq!(scale.to_relative(Val::of_int(7)), Val::PosInf);
    assert_eq!(scale.to_relative(Val::of_int(3)), Val::NegInf);
    assert!(scale.to_relative(Val::of_int(5)).is_nan());
}

#[test]
fn test_linear_round_trip_exact() {
    let scale = LinearScale::new(Val::of_int(-7), Val::of_int(13));
    let positions = [
        Val::of_int(0),
        Val::ratio(1, 3),
        Val::ratio(1, 2),
        Val::ratio(7, 9),
        Val::of_int(1),
    ];
    for x in positions {
        assert_eq!(scale.to_relative(scale.to_absolute(x)), x);
    }
    let inv = LinearScale::inverted(Val::of_int(-7), Val::of_int(13));
    for x in positions {
        assert_eq!(inv.to_relative(inv.to_absolute(x)), x);
    }
}

#[test]
fn test_relative_delta() {
    let scale = LinearScale::new(Val::of_int(0), Val::of_int(100));
    // An absolute step of 10 is a relative step of 0.1 anywhere on a linear
    // scale.
    assert_eq!(scale.to_relative_delta(Val::of_int(10), Val::ratio(1, 2)), Val::ratio(1, 10));
    assert_eq!(scale.to_absolute_delta(Val::ratio(1, 10), Val::of_int(50)), Val::of_int(10));
}
