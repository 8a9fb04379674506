use orn::{Or1, Or2, Or3, Or4};

#[test]
fn widening_keeps_case_and_value() {
    let v = Or1::<u8>::T0(5);
    assert_eq!(v.widen2::<u16>(), Or2::<u8, u16>::T0(5));
    assert_eq!(v.widen3::<u16, u32>(), Or3::<u8, u16, u32>::T0(5));
    assert_eq!(v.widen4::<u16, u32, u64>(), Or4::<u8, u16, u32, u64>::T0(5));

    let w = Or2::<u8, u16>::T1(6);
    assert_eq!(w.widen3::<u32>(), Or3::<u8, u16, u32>::T1(6));
    assert_eq!(w.widen4::<u32, u64>(), Or4::<u8, u16, u32, u64>::T1(6));

    let z = Or3::<u8, u16, u32>::T2(7);
    assert_eq!(z.widen4::<u64>(), Or4::<u8, u16, u32, u64>::T2(7));
}

#[test]
fn narrowing_inverts_widening_on_shared_cases() {
    let v = Or1::<u8>::T0(5);
    assert_eq!(v.widen2::<u16>().narrow1(), Ok(v));
    assert_eq!(v.widen3::<u16, u32>().narrow1(), Ok(v));
    assert_eq!(v.widen4::<u16, u32, u64>().narrow1(), Ok(v));

    let w = Or2::<u8, u16>::T1(6);
    assert_eq!(w.widen3::<u32>().narrow2(), Ok(w));
    assert_eq!(w.widen4::<u32, u64>().narrow2(), Ok(w));

    let z = Or3::<u8, u16, u32>::T2(7);
    assert_eq!(z.widen4::<u64>().narrow3(), Ok(z));
}

#[test]
fn narrowing_out_of_range_returns_original() {
    let z = Or3::<u8, u16, u32>::T2(7);
    assert_eq!(z.narrow2(), Err(z));
    assert_eq!(z.narrow1(), Err(z));

    let w = Or2::<u8, u16>::T1(6);
    assert_eq!(w.narrow1(), Err(w));

    let q = Or4::<u8, u16, u32, u64>::T3(9);
    assert_eq!(q.narrow3(), Err(q));
    assert_eq!(q.narrow2(), Err(q));
    assert_eq!(q.narrow1(), Err(q));
}

#[test]
fn narrowing_in_range_succeeds_from_any_wider_arity() {
    let q = Or4::<u8, u16, u32, u64>::T1(9);
    assert_eq!(q.narrow2(), Ok(Or2::<u8, u16>::T1(9)));
    assert_eq!(q.narrow3(), Ok(Or3::<u8, u16, u32>::T1(9)));
    assert_eq!(q.narrow1(), Err(q));
}
