//! Fixed-arity, unlabeled sum types: `Or1<T0>` through `Or8<T0, ..., T7>`.
//!
//! Each arity `K` gets a closed tagged union with `K` positional cases, a
//! complete operation set (positional accessors, transforms, tuple
//! interconversion), and widening/narrowing conversions between arities.

use vstd::prelude::*;

pub mod or1;
pub mod or2;
pub mod or3;
pub mod or4;
pub mod or5;
pub mod or6;
pub mod or7;
pub mod or8;

verus! {

/// Positional access at compile-time index `I`.
pub trait At<const I: usize> where Self: Sized {
    type Item;

    /// What [`At::at`] returns.
    spec fn at_spec(self) -> Self::Item;

    fn at(self) -> (r: Self::Item)
        ensures
            r == self.at_spec(),
    ;
}

/// Runtime test of which case is active.
pub trait Is {
    fn is(&self, index: usize) -> bool;
}

/// The fixed number of positions of a sum or tuple type.
pub trait Count {
    const COUNT: usize;
}

impl Count for () {
    const COUNT: usize = 0;
}

/// Returns its first argument unchanged, ignoring the supplied function.
#[inline]
pub fn same<T, F>(item: T, _map: F) -> (r: T)
    ensures
        r == item,
{
    item
}

/// Applies the supplied function to the item.
#[inline]
pub fn with<T, U, F: FnOnce(T) -> U>(item: T, map: F) -> (r: U)
    requires
        call_requires(map, (item,)),
    ensures
        call_ensures(map, (item,), r),
{
    map(item)
}

pub type Or1<T0> = or1::Or<T0>;

pub type Or2<T0, T1> = or2::Or<T0, T1>;

pub type Or3<T0, T1, T2> = or3::Or<T0, T1, T2>;

pub type Or4<T0, T1, T2, T3> = or4::Or<T0, T1, T2, T3>;

pub type Or5<T0, T1, T2, T3, T4> = or5::Or<T0, T1, T2, T3, T4>;

pub type Or6<T0, T1, T2, T3, T4, T5> = or6::Or<T0, T1, T2, T3, T4, T5>;

pub type Or7<T0, T1, T2, T3, T4, T5, T6> = or7::Or<T0, T1, T2, T3, T4, T5, T6>;

pub type Or8<T0, T1, T2, T3, T4, T5, T6, T7> = or8::Or<T0, T1, T2, T3, T4, T5, T6, T7>;

} // verus!
