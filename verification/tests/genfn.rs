use veloren::genfn::{AddFn, ConstantFn, FloatFn, GenFn, MapFn, PowfFn};
use veloren::vec::Vec3;

#[test]
fn test_genfn_common_types() {
    let _ = ConstantFn::new(0u8);
    let _ = ConstantFn::new(0u16);
    let _ = ConstantFn::new(0u32);
    let _ = ConstantFn::new(0u64);

    let _ = ConstantFn::new(0i8);
    let _ = ConstantFn::new(0i16);
    let _ = ConstantFn::new(0i32);
    let _ = ConstantFn::new(0i64);

    let _ = ConstantFn::new(0.0f32);
    let _ = ConstantFn::new(0.0f64);

    let _ = ConstantFn::new(true);

    let _ = ConstantFn::new((0u8, 0u8, 0u8));
    let _ = ConstantFn::new((0u16, 0u16, 0u16));
    let _ = ConstantFn::new((0u32, 0u32, 0u32));
    let _ = ConstantFn::new((0u64, 0u64, 0u64));

    let _ = ConstantFn::new((0i8, 0i8, 0i8));
    let _ = ConstantFn::new((0i16, 0i16, 0i16));
    let _ = ConstantFn::new((0i32, 0i32, 0i32));
    let _ = ConstantFn::new(Vec3::new(0, 0, 0));

    let _ = ConstantFn::new((0.0f32, 0.0f32, 0.0f32));
    let _ = ConstantFn::new((0.0f64, 0.0f64, 0.0f64));

    let _ = ConstantFn::new((true, true, true));
}

#[test]
fn test_constantfn() {
    let x = ConstantFn::new(5);
    assert_eq!(x.eval(0), 5);
}

#[test]
fn test_addfn() {
    let x = AddFn::new(ConstantFn::new(3), ConstantFn::new(7));
    assert_eq!(x.eval(0), 10);
}

#[test]
fn test_mapfn() {
    let x = MapFn::new(ConstantFn::new(3), |v| v * 3);
    assert_eq!(x.eval(0), 9);
}

#[test]
fn test_map() {
    let x = ConstantFn::new(3).map(|v| v * 3);
    assert_eq!(x.eval(0), 9);
}

#[test]
fn constant_ignores_its_input() {
    let x = ConstantFn::new(-4i64);
    assert_eq!(GenFn::<i64, i64>::eval(&x, 100), -4);
    assert_eq!(GenFn::<i64, i64>::eval(&x, -100), -4);
}

#[test]
fn sums_and_maps_compose() {
    let sum = AddFn::new(ConstantFn::new(3i64), AddFn::new(ConstantFn::new(4i64), ConstantFn::new(5i64)));
    assert_eq!(GenFn::<u8, i64>::eval(&sum, 0), 12);
    let doubled = MapFn::new(sum, |v: i64| v * 2);
    assert_eq!(doubled.eval(0u8), 24);
}

#[test]
fn powf_keeps_its_parts() {
    let p: PowfFn<ConstantFn<i64>, i64> = PowfFn::new(ConstantFn::new(5i64), 2i64);
    assert_eq!(*p.power(), 2);
    assert_eq!(GenFn::<u8, i64>::eval(p.base_fn(), 0), 5);
    let q = FloatFn::<u8, i64>::powf(ConstantFn::new(7i64), 3i64);
    assert_eq!(*q.power(), 3);
    assert_eq!(GenFn::<u8, i64>::eval(q.base_fn(), 9), 7);
}

#[test]
fn swapping_the_parts_of_a_sum() {
    let ab = AddFn::new(ConstantFn::new(-6i64), MapFn::new(ConstantFn::new(5i64), |v: i64| v * 10));
    let ba = AddFn::new(MapFn::new(ConstantFn::new(5i64), |v: i64| v * 10), ConstantFn::new(-6i64));
    assert_eq!(GenFn::<u8, i64>::eval(&ab, 1), 44);
    assert_eq!(GenFn::<u8, i64>::eval(&ba, 1), 44);
}
