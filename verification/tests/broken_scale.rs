use scales::broken::BrokenScale;
use scales::converter::{ClampingConverter, Converter};
use scales::linear::LinearScale;
use scales::value::Val;
use scales::Scale;

#[test]
fn test_broken_scale() {
    let broken = BrokenScale::new(Val::of_int(-120), Val::of_int(12), &[]);

    assert_eq!(Val::of_int(-120), broken.to_absolute(Val::of_int(0)));
    assert_eq!(Val::of_int(0), broken.to_relative(Val::of_int(-120)));

    assert_eq!(Val::of_int(12), broken.to_absolute(Val::of_int(1)));
    assert_eq!(Val::of_int(1), broken.to_relative(Val::of_int(12)));

    assert_eq!(Val::of_int(-54), broken.to_absolute(Val::ratio(1, 2)));
    assert_eq!(Val::ratio(1, 2), broken.to_relative(Val::of_int(-54)));
}

#[test]
fn test_broken_scale_converter() {
    let broken = BrokenScale::new(Val::of_int(-120), Val::of_int(12), &[]);
    let linear = LinearScale::inverted(Val::of_int(100), Val::of_int(200));
    let conv = (linear, broken);

    assert_eq!(Val::of_int(100), conv.convert_back(Val::of_int(12)));
    assert_eq!(Val::of_int(12), conv.convert(Val::of_int(100)));

    assert_eq!(Val::of_int(200), conv.convert_back(Val::of_int(-120)));
    assert_eq!(Val::of_int(-120), conv.convert(Val::of_int(200)));

    assert_eq!(Val::of_int(150), conv.convert_back(Val::of_int(-54)));
    assert_eq!(Val::of_int(-54), conv.convert(Val::of_int(150)));
}

#[test]
fn test_broken_scale_converter_add() {
    let broken = BrokenScale::new(Val::of_int(-120), Val::of_int(12), &[]);
    let linear = LinearScale::inverted(Val::of_int(100), Val::of_int(200));
    let conv = (linear, broken);

    let d_lin = Val::of_int(-10);
    let d_broke = conv.add_external(d_lin, Val::of_int(-54));

    assert_eq!(Val::ratio(-204, 5), d_broke);
}

#[test]
fn test_broken_scale_converter_add_clamped() {
    let broken = BrokenScale::new(Val::of_int(-120), Val::of_int(12), &[]);
    let linear = LinearScale::inverted(Val::of_int(100), Val::of_int(200));
    let conv = (linear, broken);

    let d_lin = Val::of_int(-10);
    let d_broke = conv.add_external_clamped(d_lin, Val::of_int(-120));

    assert_eq!(Val::ratio(-534, 5), d_broke);
}

#[test]
fn test_broken_scale_converter_add_clamped_lower_bound() {
    let broken = BrokenScale::new(Val::of_int(-120), Val::of_int(12), &[]);
    let linear = LinearScale::inverted(Val::of_int(100), Val::of_int(200));
    let conv = (linear, broken);

    let d_lin = Val::of_int(10);
    let d_broke = conv.add_external_clamped(d_lin, Val::of_int(-120));

    assert_eq!(Val::of_int(-120), d_broke);
}

#[test]
fn test_broken_scale_converter_add_clamped_upper_bound() {
    let broken = BrokenScale::new(Val::of_int(-120), Val::of_int(12), &[]);
    let linear = LinearScale::inverted(Val::of_int(100), Val::of_int(200));
    let conv = (linear, broken);

    let d_lin = Val::of_int(-10);
    let d_broke = conv.add_external_clamped(d_lin, Val::of_int(12));

    assert_eq!(Val::of_int(12), d_broke);
}

#[test]
fn test_breakpoint_remap() {
    // One breakpoint: absolute 30 sits at relative 0.5, so the lower half of
    // the relative axis covers [0, 30] and the upper half covers [30, 100].
    let broken = BrokenScale::new(
        Val::of_int(0),
        Val::of_int(100),
        &[(Val::of_int(30), Val::ratio(1, 2))],
    );

    assert_eq!(broken.to_absolute(Val::ratio(1, 2)), Val::of_int(30));
    assert_eq!(broken.to_absolute(Val::of_int(0)), Val::of_int(0));
    assert_eq!(broken.to_absolute(Val::of_int(1)), Val::of_int(100));

    assert_eq!(broken.to_relative(Val::of_int(30)), Val::ratio(1, 2));
    assert_eq!(broken.to_relative(Val::of_int(0)), Val::of_int(0));
    assert_eq!(broken.to_relative(Val::of_int(100)), Val::of_int(1));

    // Inside the upper segment: the line through (0.3, 0.5) and (1, 1).
    assert_eq!(broken.to_absolute(Val::ratio(3, 4)), Val::of_int(65));
    assert_eq!(broken.to_relative(Val::of_int(65)), Val::ratio(3, 4));
    // Inside the lower segment: the line through (0, 0) and (0.3, 0.5).
    assert_eq!(broken.to_absolute(Val::ratio(1, 4)), Val::of_int(15));
    assert_eq!(broken.to_relative(Val::of_int(15)), Val::ratio(1, 4));
}

#[test]
fn test_broken_round_trip_exact() {
    let broken = BrokenScale::new(
        Val::of_int(0),
        Val::of_int(100),
        &[(Val::of_int(20), Val::ratio(2, 5)), (Val::of_int(60), Val::ratio(7, 10))],
    );
    let positions = [
        Val::of_int(0),
        Val::ratio(1, 5),
        Val::ratio(2, 5),
        Val::ratio(1, 2),
        Val::ratio(7, 10),
        Val::ratio(9, 10),
        Val::of_int(1),
    ];
    for x in positions {
        assert_eq!(broken.to_relative(broken.to_absolute(x)), x);
    }
}

#[test]
fn test_broken_extrapolation() {
    // Queries past the ends keep following the outermost segments.
    let broken = BrokenScale::new(
        Val::of_int(0),
        Val::of_int(100),
        &[(Val::of_int(30), Val::ratio(1, 2))],
    );
    // Below 0: the (0,0)-(0.3,0.5) line continues downward.
    assert_eq!(broken.to_absolute(Val::ratio(-1, 2)), Val::of_int(-30));
    // Above 1: the last segment through (1,1) continues upward: slope is
    // 0.7/0.5 on the absolute side of the remap.
    assert_eq!(broken.to_absolute(Val::ratio(3, 2)), Val::of_int(170));
    assert_eq!(broken.to_relative(Val::of_int(170)), Val::ratio(3, 2));
}
