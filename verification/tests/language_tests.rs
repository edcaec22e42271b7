use sinuous::practice::swap_example_2;

#[test]
fn test_abs() {
    let v: f64 = 0.0;
    assert!(v.abs() == 0.0);

    let w: i64 = 0;
    assert!(w.abs() == 0);

    let x: i64 = -1;
    assert!(x.abs() == 1);

    let y: i64 = 2;
    assert!(y.abs() == 2);

    let z: f64 = -5.5;
    assert!(z.abs() == 5.5);
}

#[test]
fn test_swap_example_inline() {
    let a: bool = true;
    let b: bool = false;
    let (aa, bb) = (b, a);
    assert!(aa == false);
    assert!(bb == true);

    let (mut aaa, mut bbb) = swap_example_2(a, b);
    aaa = true && aaa;
    bbb = false || bbb;
    assert!(aaa == false);
    assert!(bbb == true);
}

#[test]
fn test_something() {
    println!("Testing...");
}

#[test]
fn test_min_max() {
    let a: f64 = 0.0;
    let b: f64 = 2.0;
    assert_eq!(if a > b { a } else { b }, b);
    assert_eq!(if a < b { a } else { b }, a);

    let c: f32 = 1.0;
    let d: f32 = 3.0;
    assert_eq!(if c > d { c } else { d }, d);
    assert_eq!(if c < d { c } else { d }, c);
}

#[test]
fn test_nan() {
    let a: f64 = 1.0;
    assert!(!(a > f64::NAN));
    assert!(!(a < f64::NAN));
    assert!(!(a == f64::NAN));
}
