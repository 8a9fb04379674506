use orn::{Or1, Or2, Or3, Or4};
use std::borrow::Cow;

#[test]
fn into_compiles() {
    let value = Or2::<&'static str, Cow<'static, str>>::T0("a").into::<String>();
    assert_eq!(value, "a".to_string());
}

#[test]
fn into_converts_each_case() {
    let a = Or2::<u8, u16>::T0(7).into::<u32>();
    assert_eq!(a, 7u32);
    let b = Or2::<u8, u16>::T1(300).into::<u32>();
    assert_eq!(b, 300u32);
    let c = Or3::<u8, u16, u32>::T2(70_000).into::<u64>();
    assert_eq!(c, 70_000u64);
}

#[test]
fn constructed_case_is_observable() {
    let v = Or2::<u8, u16>::T0(8);
    assert!(v.is_t0());
    assert!(!v.is_t1());
    assert_eq!(v.t0(), Some(8));
    assert_eq!(v.t1(), None);

    let w = Or2::<u8, u16>::T1(16);
    assert!(!w.is_t0());
    assert!(w.is_t1());
    assert_eq!(w.t0(), None);
    assert_eq!(w.t1(), Some(16));
}

#[test]
fn constructed_case_is_observable_higher_arities() {
    let v = Or3::<u8, u16, u32>::T2(9);
    assert!(!v.is_t0());
    assert!(!v.is_t1());
    assert!(v.is_t2());
    assert_eq!(v.t0(), None);
    assert_eq!(v.t1(), None);
    assert_eq!(v.t2(), Some(9));

    let w = Or4::<u8, u16, u32, u64>::T3(10);
    assert!(!w.is_t0());
    assert!(!w.is_t1());
    assert!(!w.is_t2());
    assert!(w.is_t3());
    assert_eq!(w.t3(), Some(10));
    assert_eq!(w.t0(), None);

    let u = Or1::<u8>::T0(1);
    assert!(u.is_t0());
    assert_eq!(u.t0(), Some(1));
}

#[test]
fn positional_map_touches_only_its_case() {
    let v = Or2::<u8, u16>::T0(8);
    let m = v.map_t0(|x| x as u32 + 1);
    assert_eq!(m, Or2::<u32, u16>::T0(9));

    let w = Or2::<u8, u16>::T1(16);
    let m = w.map_t0(|x| x as u32 + 1);
    assert_eq!(m, Or2::<u32, u16>::T1(16));

    let z = Or3::<u8, u16, u32>::T1(5);
    let m = z.map_t2(|x| x as u64);
    assert_eq!(m, Or3::<u8, u16, u64>::T1(5));
}

#[test]
fn homogeneous_map_preserves_case() {
    let v = Or2::<u8, u8>::T1(10);
    let m = v.map(|x| x as u16 * 2);
    assert_eq!(m, Or2::<u16, u16>::T1(20));

    let w = Or3::<u8, u8, u8>::T0(3);
    let m = w.map(|x| x + 1);
    assert_eq!(m, Or3::<u8, u8, u8>::T0(4));

    let z = Or4::<u8, u8, u8, u8>::T2(3);
    let m = z.map(|x| x + 1);
    assert_eq!(m, Or4::<u8, u8, u8, u8>::T2(4));
}

#[test]
fn homogeneous_map_with_threads_state() {
    let v = Or2::<u8, u8>::T0(10);
    let m = v.map_with(5u8, |s, x| (s + x) as u16);
    assert_eq!(m, Or2::<u16, u16>::T0(15));
}

#[test]
fn into_inner_returns_value_of_any_case() {
    assert_eq!(Or2::<u8, u8>::T0(1).into_inner(), 1);
    assert_eq!(Or2::<u8, u8>::T1(2).into_inner(), 2);
    assert_eq!(Or4::<u8, u8, u8, u8>::T3(4).into_inner(), 4);
}

#[test]
fn borrow_projections_keep_the_case() {
    let v = Or2::<u8, u16>::T1(16);
    let r = v.as_ref();
    assert_eq!(r, Or2::<&u8, &u16>::T1(&16));
    assert_eq!(r.copied(), v);
    assert_eq!(v.as_ref().cloned(), v);

    let s = Or3::<u8, u16, u32>::T0(2);
    assert_eq!(s.as_ref().copied(), s);
    assert_eq!(s.as_ref().cloned(), s);
}

#[test]
fn same_and_with_combinators() {
    assert_eq!(orn::same(3u8, |x: u8| x + 1), 3);
    assert_eq!(orn::with(3u8, |x: u8| x + 1), 4);
}
