use scales::broken::BrokenScale;
use scales::convert::{FromFloat, FromInt, ToFloat, ToInt};
use scales::converter::{ClampingConverter, Converter};
use scales::linear::LinearScale;
use scales::value::Val;
use scales::Scale;

#[test]
fn test_special_value_rules() {
    // Division by zero follows the IEEE-754 pattern: signed infinity for a
    // nonzero numerator, Nan for zero over zero.
    assert_eq!(Val::ratio(1, 0), Val::PosInf);
    assert_eq!(Val::ratio(-1, 0), Val::NegInf);
    assert!(Val::ratio(0, 0).is_nan());

    // Nan compares equal to nothing, itself included.
    assert!(Val::Nan != Val::Nan);
    assert!(Val::Nan != Val::of_int(0));

    // Opposite infinities cancel to Nan; same-signed ones persist.
    assert!(Val::PosInf.add(Val::NegInf).is_nan());
    assert_eq!(Val::PosInf.add(Val::PosInf), Val::PosInf);
    assert_eq!(Val::PosInf.add(Val::of_int(5)), Val::PosInf);
    assert!(Val::PosInf.sub(Val::PosInf).is_nan());

    // An infinity times zero is Nan; times anything else it keeps the
    // combined sign.
    assert!(Val::PosInf.mul(Val::of_int(0)).is_nan());
    assert_eq!(Val::PosInf.mul(Val::of_int(-2)), Val::NegInf);
    assert_eq!(Val::NegInf.mul(Val::NegInf), Val::PosInf);

    // A finite value divided by an infinity collapses to zero.
    assert_eq!(Val::of_int(7).div(Val::PosInf), Val::of_int(0));
    assert!(Val::PosInf.div(Val::NegInf).is_nan());

    // Nan propagates through every operation.
    assert!(Val::Nan.add(Val::of_int(1)).is_nan());
    assert!(Val::of_int(1).mul(Val::Nan).is_nan());
}

#[test]
fn test_exact_fractions() {
    assert_eq!(Val::ratio(1, 3).add(Val::ratio(1, 6)), Val::ratio(1, 2));
    assert_eq!(Val::ratio(1, 2).sub(Val::ratio(1, 3)), Val::ratio(1, 6));
    assert_eq!(Val::ratio(2, 3).mul(Val::ratio(3, 4)), Val::ratio(1, 2));
    assert_eq!(Val::ratio(1, 2).div(Val::ratio(1, 8)), Val::of_int(4));
    assert_eq!(Val::ratio(3, -4), Val::ratio(-3, 4));
    assert!(Val::ratio(1, 3).lt(Val::ratio(1, 2)));
    assert!(!Val::Nan.lt(Val::Nan));
    assert!(!Val::Nan.le(Val::of_int(0)));
}

#[test]
fn test_nan_passes_clamp_unchanged() {
    // A value that compares with neither bound falls through the clamped
    // operations untouched.
    let scale = LinearScale::new(Val::of_int(0), Val::of_int(100));
    assert!(scale.to_clamped_relative(Val::Nan).is_nan());
    assert!(scale.to_clamped_absolute(Val::Nan).is_nan());

    let broken = BrokenScale::new(Val::of_int(-120), Val::of_int(12), &[]);
    let conv = (LinearScale::inverted(Val::of_int(100), Val::of_int(200)), broken);
    assert!(conv.add_external_clamped(Val::Nan, Val::of_int(-54)).is_nan());
}

#[test]
fn test_clamped_add_never_escapes_bounds() {
    // Deltas that overshoot in either direction are pinned to the target
    // scale's bounds, for arbitrary magnitudes.
    let broken = BrokenScale::new(Val::of_int(-120), Val::of_int(12), &[]);
    let linear = LinearScale::inverted(Val::of_int(100), Val::of_int(200));
    let conv = (linear, broken);

    let deltas = [
        Val::of_int(-1_000_000),
        Val::of_int(-101),
        Val::of_int(-1),
        Val::of_int(0),
        Val::of_int(1),
        Val::of_int(101),
        Val::of_int(1_000_000),
    ];
    let start_points = [Val::of_int(-120), Val::of_int(-54), Val::of_int(12)];
    let lo = Val::of_int(-120);
    let hi = Val::of_int(12);
    for d in deltas {
        for v in start_points {
            let r = conv.add_external_clamped(d, v);
            assert!(lo.le(r) && r.le(hi));
        }
    }

    let ext_lo = Val::of_int(100);
    let ext_hi = Val::of_int(200);
    for d in deltas {
        for v in start_points.map(|v| conv.convert_back(v)) {
            let r = conv.add_internal_clamped(d, v);
            assert!(ext_lo.le(r) && r.le(ext_hi));
        }
    }
}

#[test]
fn test_int_conversions_truncate_and_saturate() {
    // Truncation toward zero, like a float-to-integer cast.
    let q: i64 = Val::ratio(7, 2).to_int();
    assert_eq!(q, 3);
    let q: i64 = Val::ratio(-7, 2).to_int();
    assert_eq!(q, -3);

    // Saturation at the target's bounds.
    let q: i8 = Val::of_int(1000).to_int();
    assert_eq!(q, 127);
    let q: i8 = Val::of_int(-1000).to_int();
    assert_eq!(q, -128);
    let q: u8 = Val::of_int(-5).to_int();
    assert_eq!(q, 0);
    let q: u16 = Val::of_int(70_000).to_int();
    assert_eq!(q, 65_535);

    // The special values map the way casts map them.
    let q: i32 = Val::Nan.to_int();
    assert_eq!(q, 0);
    let q: i32 = Val::PosInf.to_int();
    assert_eq!(q, i32::MAX);
    let q: i32 = Val::NegInf.to_int();
    assert_eq!(q, i32::MIN);
    let q: u32 = Val::NegInf.to_int();
    assert_eq!(q, 0);

    // Round trips through the pivot are exact for every width.
    let v: Val = (-37i16).to_float();
    assert_eq!(v, Val::of_int(-37));
    let w: i16 = v.to_int();
    assert_eq!(w, -37);
    let v: Val = 250u8.to_float();
    let w: u8 = v.to_int();
    assert_eq!(w, 250);

    // Values beyond the pivot's exact range saturate on the way in.
    let v: Val = u64::MAX.to_float();
    assert_eq!(v, Val::of_int(i64::MAX));

    // The explicit trait entry points behave like the method forms.
    assert_eq!(<Val as FromInt<i32>>::from_int(-3), Val::of_int(-3));
    assert_eq!(<i64 as FromFloat<Val>>::from_float(Val::ratio(9, 4)), 2);
    assert_eq!(<Val as FromFloat<Val>>::from_float(Val::ratio(9, 4)), Val::ratio(9, 4));
}
