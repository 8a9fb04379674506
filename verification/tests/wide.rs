use orn::{Count, Or1, Or5, Or6, Or7, Or8};

#[test]
fn round_trip_arity_8() {
    let rows = Or8::<u8, u16, u32, u64, i8, i16, i32, i64>::from_tuple((
        1, 2, 3, 4, -5, -6, -7, -8,
    ));
    assert_eq!(rows.len(), 8);
    assert_eq!(
        Or8::<u8, u16, u32, u64, i8, i16, i32, i64>::try_into_tuple(rows),
        Ok((1u8, 2u16, 3u32, 4u64, -5i8, -6i16, -7i32, -8i64))
    );
}

#[test]
fn scrambled_rows_sort_recovers_arity_5() {
    let mut rows = Or5::<u8, u16, u32, u64, i8>::from_tuple((1, 2, 3, 4, -5));
    rows.reverse();
    assert!(Or5::<u8, u16, u32, u64, i8>::try_into_tuple(rows.clone()).is_err());
    Or5::<u8, u16, u32, u64, i8>::sort(&mut rows);
    assert_eq!(
        Or5::<u8, u16, u32, u64, i8>::try_into_tuple(rows),
        Ok((1u8, 2u16, 3u32, 4u64, -5i8))
    );
}

#[test]
fn widening_chain_reaches_arity_8() {
    let v = Or1::<u8>::T0(5);
    let wide = v.widen8::<u8, u8, u8, u8, u8, u8, u8>();
    assert!(wide.is_t0());
    assert_eq!(wide.t0(), Some(5));
    assert_eq!(wide.narrow1(), Ok(v));

    let w = Or6::<u8, u8, u8, u8, u8, u8>::T5(9);
    let wider = w.widen8::<u8, u8>();
    assert!(wider.is_t5());
    assert_eq!(wider.narrow6(), Ok(w));
    assert_eq!(wider.narrow5(), Err(wider));
}

#[test]
fn case_observability_arity_8() {
    let v = Or8::<u8, u8, u8, u8, u8, u8, u8, u8>::T6(3);
    assert_eq!(v.case(), 6);
    assert!(v.is_t6());
    assert!(!v.is_t0());
    assert!(!v.is_t7());
    assert_eq!(v.t6(), Some(3));
    assert_eq!(v.t7(), None);
    assert_eq!(v.into_inner(), 3);
}

#[test]
fn counts_reach_arity_8() {
    assert_eq!(<Or7<u8, u8, u8, u8, u8, u8, u8> as Count>::COUNT, 7);
    assert_eq!(<Or8<u8, u8, u8, u8, u8, u8, u8, u8> as Count>::COUNT, 8);
    assert_eq!(<() as Count>::COUNT, 0);
    assert_eq!(<(u8, u8, u8, u8, u8, u8, u8, u8) as Count>::COUNT, 8);
}

#[test]
fn homogeneous_map_arity_7() {
    let v = Or7::<u8, u8, u8, u8, u8, u8, u8>::T4(10);
    let m = v.map(|x| x * 2);
    assert_eq!(m.case(), 4);
    assert_eq!(m.into_inner(), 20);
}
