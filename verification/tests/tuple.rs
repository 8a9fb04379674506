use orn::{Or1, Or2, Or3, Or4};

#[test]
fn round_trip_arity_1() {
    let rows = Or1::<u8>::from_tuple((5,));
    assert_eq!(rows, vec![Or1::<u8>::T0(5)]);
    assert_eq!(Or1::<u8>::try_into_tuple(rows), Ok((5,)));
}

#[test]
fn round_trip_arity_2() {
    let rows = Or2::<u8, u16>::from_tuple((8, 16));
    assert_eq!(rows, vec![Or2::<u8, u16>::T0(8), Or2::<u8, u16>::T1(16)]);
    assert_eq!(Or2::<u8, u16>::try_into_tuple(rows), Ok((8u8, 16u16)));
}

#[test]
fn round_trip_arity_3() {
    let rows = Or3::<u8, u16, u32>::from_tuple((1, 2, 3));
    assert_eq!(Or3::<u8, u16, u32>::try_into_tuple(rows), Ok((1u8, 2u16, 3u32)));
}

#[test]
fn round_trip_arity_4() {
    let rows = Or4::<u8, u16, u32, u64>::from_tuple((1, 2, 3, 4));
    assert_eq!(
        Or4::<u8, u16, u32, u64>::try_into_tuple(rows),
        Ok((1u8, 2u16, 3u32, 4u64))
    );
}

#[test]
fn scrambled_rows_fail_then_sort_recovers() {
    let mut rows = Or2::<u8, u16>::from_tuple((8, 16));
    rows.swap(0, 1);
    let failed = Or2::<u8, u16>::try_into_tuple(rows);
    let rows = match failed {
        Ok(_) => panic!("out-of-order rows must not rebuild"),
        Err(rows) => rows,
    };
    assert_eq!(rows, vec![Or2::<u8, u16>::T1(16), Or2::<u8, u16>::T0(8)]);
    let mut rows = rows;
    Or2::<u8, u16>::sort(&mut rows);
    assert_eq!(Or2::<u8, u16>::try_into_tuple(rows), Ok((8u8, 16u16)));
}

#[test]
fn scrambled_rows_sort_recovers_arity_4() {
    let mut rows = Or4::<u8, u16, u32, u64>::from_tuple((1, 2, 3, 4));
    rows.reverse();
    Or4::<u8, u16, u32, u64>::sort(&mut rows);
    assert_eq!(
        Or4::<u8, u16, u32, u64>::try_into_tuple(rows),
        Ok((1u8, 2u16, 3u32, 4u64))
    );
}

#[test]
fn duplicate_case_index_fails() {
    let rows = vec![Or2::<u8, u16>::T1(100), Or2::<u8, u16>::T1(200)];
    let r = Or2::<u8, u16>::try_into_tuple(rows.clone());
    assert_eq!(r, Err(rows));
}

#[test]
fn duplicate_case_index_fails_even_after_sort() {
    let mut rows = vec![Or2::<u8, u16>::T1(100), Or2::<u8, u16>::T1(200)];
    Or2::<u8, u16>::sort(&mut rows);
    assert!(Or2::<u8, u16>::try_into_tuple(rows).is_err());
}

#[test]
fn wrong_length_fails_and_returns_rows() {
    let rows = vec![Or2::<u8, u16>::T0(8)];
    assert_eq!(Or2::<u8, u16>::try_into_tuple(rows.clone()), Err(rows));
    let empty: Vec<Or2<u8, u16>> = vec![];
    assert_eq!(Or2::<u8, u16>::try_into_tuple(empty), Err(vec![]));
}

#[test]
fn sort_of_empty_and_sorted_rows() {
    let mut empty: Vec<Or2<u8, u16>> = vec![];
    Or2::<u8, u16>::sort(&mut empty);
    assert!(empty.is_empty());

    let mut rows = Or2::<u8, u16>::from_tuple((8, 16));
    Or2::<u8, u16>::sort(&mut rows);
    assert_eq!(rows, vec![Or2::<u8, u16>::T0(8), Or2::<u8, u16>::T1(16)]);
}

#[test]
fn sort_keeps_duplicates() {
    let mut rows = vec![
        Or3::<u8, u16, u32>::T2(3),
        Or3::<u8, u16, u32>::T0(1),
        Or3::<u8, u16, u32>::T2(4),
        Or3::<u8, u16, u32>::T0(2),
    ];
    Or3::<u8, u16, u32>::sort(&mut rows);
    assert_eq!(rows[0].case(), 0);
    assert_eq!(rows[1].case(), 0);
    assert_eq!(rows[2].case(), 2);
    assert_eq!(rows[3].case(), 2);
    let mut values: Vec<u32> = rows
        .iter()
        .map(|r| match r {
            Or3::T0(v) => *v as u32,
            Or3::T1(v) => *v as u32,
            Or3::T2(v) => *v,
        })
        .collect();
    values.sort();
    assert_eq!(values, vec![1, 2, 3, 4]);
}
