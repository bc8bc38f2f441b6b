use std::rc::Rc;
use std::sync::Arc;

use scales::broken::BrokenScale;
use scales::converter::{ClampingConverter, Converter};
use scales::linear::LinearScale;
use scales::value::Val;
use scales::Scale;

#[test]
fn test_boxed_scale() {
    // just checking that the blanket implementations compose, no assertions here

    let a = LinearScale::new(Val::of_int(0), Val::of_int(100));
    let a = Box::new(&a);
    a.to_absolute(Val::ratio(1, 2));

    let b = BrokenScale::new(Val::of_int(1), Val::of_int(10), &[]);
    let b = Box::new(b);
    b.to_relative(Val::of_int(5));

    let conv = (a, b);
    conv.convert(Val::of_int(32));

    let a = LinearScale::new(Val::of_int(0), Val::of_int(100));
    let a = Rc::new(a);
    a.to_absolute(Val::ratio(2, 5));

    let b = BrokenScale::new(Val::of_int(1), Val::of_int(10), &[]);
    let conv = (a, b);
    conv.convert(Val::of_int(32));

    let a = LinearScale::new(Val::of_int(0), Val::of_int(100));
    let a = Arc::new(a);
    a.to_absolute(Val::ratio(2, 5));

    let b = BrokenScale::new(Val::of_int(1), Val::of_int(10), &[]);
    let conv = (a, b);
    conv.convert(Val::of_int(32));
}

#[test]
fn test_converter_bounds_accessors() {
    let ext = LinearScale::inverted(Val::of_int(100), Val::of_int(200));
    let int = LinearScale::new(Val::of_int(-120), Val::of_int(12));
    let conv = (ext, int);
    assert_eq!(conv.external_min(), Val::of_int(100));
    assert_eq!(conv.external_max(), Val::of_int(200));
    assert_eq!(conv.internal_min(), Val::of_int(-120));
    assert_eq!(conv.internal_max(), Val::of_int(12));
}

#[test]
fn test_converter_round_trip() {
    let ext = LinearScale::new(Val::of_int(0), Val::of_int(127));
    let int = BrokenScale::new(
        Val::of_int(-60),
        Val::of_int(6),
        &[(Val::of_int(-12), Val::ratio(3, 4))],
    );
    let conv = (ext, int);
    for v in [Val::of_int(0), Val::of_int(32), Val::of_int(127), Val::ratio(254, 3)] {
        assert_eq!(conv.convert_back(conv.convert(v)), v);
    }
}
