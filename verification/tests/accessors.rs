use orn::{At, Count, Is, Or1, Or2, Or3, Or4};

#[test]
fn indexed_test_agrees_with_named_tests() {
    let v = Or2::<u8, u16>::T1(16);
    assert!(!v.is(0));
    assert!(v.is(1));
    assert!(!v.is(2));
    assert_eq!(v.is(0), v.is_t0());
    assert_eq!(v.is(1), v.is_t1());

    let w = Or3::<u8, u16, u32>::T0(1);
    assert!(w.is(0));
    assert!(!w.is(1));
    assert!(!w.is(2));

    let z = Or4::<u8, u16, u32, u64>::T3(1);
    assert!(z.is(3));
    assert!(!z.is(0));

    let u = Or1::<u8>::T0(1);
    assert!(u.is(0));
    assert!(!u.is(1));
}

#[test]
fn case_reports_the_active_index() {
    assert_eq!(Or2::<u8, u16>::T0(8).case(), 0);
    assert_eq!(Or2::<u8, u16>::T1(16).case(), 1);
    assert_eq!(Or3::<u8, u16, u32>::T2(1).case(), 2);
    assert_eq!(Or4::<u8, u16, u32, u64>::T3(1).case(), 3);
}

#[test]
fn counts_are_the_arity() {
    assert_eq!(<Or1<u8> as Count>::COUNT, 1);
    assert_eq!(<Or2<u8, u16> as Count>::COUNT, 2);
    assert_eq!(<Or3<u8, u16, u32> as Count>::COUNT, 3);
    assert_eq!(<Or4<u8, u16, u32, u64> as Count>::COUNT, 4);
    assert_eq!(<(u8,) as Count>::COUNT, 1);
    assert_eq!(<(u8, u16) as Count>::COUNT, 2);
    assert_eq!(<(u8, u16, u32) as Count>::COUNT, 3);
    assert_eq!(<(u8, u16, u32, u64) as Count>::COUNT, 4);
}

#[test]
fn indexed_access_agrees_with_named_access_on_sums() {
    let v = Or2::<u8, u16>::T0(8);
    let a0: Option<u8> = <Or2<u8, u16> as At<0>>::at(v);
    let a1: Option<u16> = <Or2<u8, u16> as At<1>>::at(v);
    assert_eq!(a0, v.t0());
    assert_eq!(a1, v.t1());
    assert_eq!(a0, Some(8));
    assert_eq!(a1, None);

    let w = Or3::<u8, u16, u32>::T2(3);
    let b2: Option<u32> = <Or3<u8, u16, u32> as At<2>>::at(w);
    assert_eq!(b2, Some(3));

    let z = Or4::<u8, u16, u32, u64>::T3(4);
    let c3: Option<u64> = <Or4<u8, u16, u32, u64> as At<3>>::at(z);
    assert_eq!(c3, Some(4));
}

#[test]
fn indexed_access_on_borrowed_sums() {
    let v = Or2::<u8, u16>::T1(16);
    let r1: Option<&u16> = <&Or2<u8, u16> as At<1>>::at(&v);
    assert_eq!(r1, Some(&16));
    let r0: Option<&u8> = <&Or2<u8, u16> as At<0>>::at(&v);
    assert_eq!(r0, None);
}

#[test]
fn indexed_access_on_tuples() {
    let t = (1u8, 2u16);
    assert_eq!(<(u8, u16) as At<0>>::at(t), 1);
    assert_eq!(<(u8, u16) as At<1>>::at(t), 2);
    assert_eq!(<&(u8, u16) as At<0>>::at(&t), &1);
    assert_eq!(<&(u8, u16) as At<1>>::at(&t), &2);

    let q = (1u8, 2u16, 3u32, 4u64);
    assert_eq!(<(u8, u16, u32, u64) as At<2>>::at(q), 3);
    assert_eq!(<(u8, u16, u32, u64) as At<3>>::at(q), 4);
    assert_eq!(<(u8,) as At<0>>::at((9u8,)), 9);
}
