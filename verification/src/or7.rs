//! The seven-case sum type.

use vstd::prelude::*;
use vstd::multiset::Multiset;
use vstd::std_specs::convert::IntoSpec;
use crate::{At, Is, Count};

verus! {

broadcast use
    vstd::seq_lib::group_to_multiset_ensures,
    vstd::multiset::group_multiset_axioms,
    vstd::multiset::group_multiset_properties;

/// A sum with exactly seven cases, at positions 0 through 6; exactly one is
/// active.
#[derive(Clone, Copy, Debug, PartialEq, Eq, PartialOrd, Ord, Hash)]
pub enum Or<T0, T1, T2, T3, T4, T5, T6> {
    T0(T0),
    T1(T1),
    T2(T2),
    T3(T3),
    T4(T4),
    T5(T5),
    T6(T6),
}

impl<T0, T1, T2, T3, T4, T5, T6> Or<T0, T1, T2, T3, T4, T5, T6> {
    /// The index of the active case.
    pub open spec fn tag(self) -> nat {
        match self {
            Or::T0(_) => 0,
            Or::T1(_) => 1,
            Or::T2(_) => 2,
            Or::T3(_) => 3,
            Or::T4(_) => 4,
            Or::T5(_) => 5,
            Or::T6(_) => 6,
        }
    }

    /// The collection that [`Or::from_tuple`] returns: one sum per position,
    /// each active at the case matching its position.
    pub open spec fn tuple_form(t: (T0, T1, T2, T3, T4, T5, T6)) -> Seq<Or<T0, T1, T2, T3, T4, T5, T6>> {
        seq![Or::T0(t.0), Or::T1(t.1), Or::T2(t.2), Or::T3(t.3), Or::T4(t.4), Or::T5(t.5), Or::T6(t.6)]
    }

    /// The tuple that a position-tagged collection reconstructs to: defined
    /// exactly when element `i` is active at case `i` for every position.
    pub open spec fn reconstruct(s: Seq<Or<T0, T1, T2, T3, T4, T5, T6>>) -> Option<(T0, T1, T2, T3, T4, T5, T6)> {
        if s.len() == 7 {
            match (s[0], s[1], s[2], s[3], s[4], s[5], s[6]) {
                (Or::T0(a), Or::T1(b), Or::T2(c), Or::T3(d), Or::T4(e), Or::T5(f), Or::T6(g)) => Some((a, b, c, d, e, f, g)),
                _ => None,
            }
        } else {
            None
        }
    }

    /// Whether the collection is ordered by ascending case index.
    pub open spec fn sorted(s: Seq<Or<T0, T1, T2, T3, T4, T5, T6>>) -> bool {
        forall|i: int, j: int| 0 <= i <= j < s.len() ==> s[i].tag() <= s[j].tag()
    }

    /// The index of the active case.
    #[inline]
    pub fn case(&self) -> (r: usize)
        ensures
            r == self.tag(),
    {
        match self {
            Or::T0(_) => 0,
            Or::T1(_) => 1,
            Or::T2(_) => 2,
            Or::T3(_) => 3,
            Or::T4(_) => 4,
            Or::T5(_) => 5,
            Or::T6(_) => 6,
        }
    }

    /// Returns the contained value if case 0 is active.
    #[inline]
    pub fn t0(self) -> (r: Option<T0>)
        ensures
            self matches Or::T0(v) ==> r == Some(v),
            !(self is T0) ==> r is None,
    {
        match self {
            Or::T0(item) => Some(item),
            _ => None,
        }
    }

    /// Returns the contained value if case 1 is active.
    #[inline]
    pub fn t1(self) -> (r: Option<T1>)
        ensures
            self matches Or::T1(v) ==> r == Some(v),
            !(self is T1) ==> r is None,
    {
        match self {
            Or::T1(item) => Some(item),
            _ => None,
        }
    }

    /// Returns the contained value if case 2 is active.
    #[inline]
    pub fn t2(self) -> (r: Option<T2>)
        ensures
            self matches Or::T2(v) ==> r == Some(v),
            !(self is T2) ==> r is None,
    {
        match self {
            Or::T2(item) => Some(item),
            _ => None,
        }
    }

    /// Returns the contained value if case 3 is active.
    #[inline]
    pub fn t3(self) -> (r: Option<T3>)
        ensures
            self matches Or::T3(v) ==> r == Some(v),
            !(self is T3) ==> r is None,
    {
        match self {
            Or::T3(item) => Some(item),
            _ => None,
        }
    }

    /// Returns the contained value if case 4 is active.
    #[inline]
    pub fn t4(self) -> (r: Option<T4>)
        ensures
            self matches Or::T4(v) ==> r == Some(v),
            !(self is T4) ==> r is None,
    {
        match self {
            Or::T4(item) => Some(item),
            _ => None,
        }
    }

    /// Returns the contained value if case 5 is active.
    #[inline]
    pub fn t5(self) -> (r: Option<T5>)
        ensures
            self matches Or::T5(v) ==> r == Some(v),
            !(self is T5) ==> r is None,
    {
        match self {
            Or::T5(item) => Some(item),
            _ => None,
        }
    }

    /// Returns the contained value if case 6 is active.
    #[inline]
    pub fn t6(self) -> (r: Option<T6>)
        ensures
            self matches Or::T6(v) ==> r == Some(v),
            !(self is T6) ==> r is None,
    {
        match self {
            Or::T6(item) => Some(item),
            _ => None,
        }
    }

    /// True exactly when case 0 is active.
    #[inline]
    pub fn is_t0(&self) -> (r: bool)
        ensures
            r == (self is T0),
    {
        match self {
            Or::T0(_) => true,
            _ => false,
        }
    }

    /// True exactly when case 1 is active.
    #[inline]
    pub fn is_t1(&self) -> (r: bool)
        ensures
            r == (self is T1),
    {
        match self {
            Or::T1(_) => true,
            _ => false,
        }
    }

    /// True exactly when case 2 is active.
    #[inline]
    pub fn is_t2(&self) -> (r: bool)
        ensures
            r == (self is T2),
    {
        match self {
            Or::T2(_) => true,
            _ => false,
        }
    }

    /// True exactly when case 3 is active.
    #[inline]
    pub fn is_t3(&self) -> (r: bool)
        ensures
            r == (self is T3),
    {
        match self {
            Or::T3(_) => true,
            _ => false,
        }
    }

    /// True exactly when case 4 is active.
    #[inline]
    pub fn is_t4(&self) -> (r: bool)
        ensures
            r == (self is T4),
    {
        match self {
            Or::T4(_) => true,
            _ => false,
        }
    }

    /// True exactly when case 5 is active.
    #[inline]
    pub fn is_t5(&self) -> (r: bool)
        ensures
            r == (self is T5),
    {
        match self {
            Or::T5(_) => true,
            _ => false,
        }
    }

    /// True exactly when case 6 is active.
    #[inline]
    pub fn is_t6(&self) -> (r: bool)
        ensures
            r == (self is T6),
    {
        match self {
            Or::T6(_) => true,
            _ => false,
        }
    }

    /// Transforms the value at case 0; any other case passes through unchanged.
    #[inline]
    pub fn map_t0<U, F: FnOnce(T0) -> U>(self, map: F) -> (r: Or<U, T1, T2, T3, T4, T5, T6>)
        requires
            self matches Or::T0(v) ==> call_requires(map, (v,)),
        ensures
            self matches Or::T0(v) ==> (r matches Or::T0(u) && call_ensures(map, (v,), u)),
            self matches Or::T1(v) ==> r == Or::<U, T1, T2, T3, T4, T5, T6>::T1(v),
            self matches Or::T2(v) ==> r == Or::<U, T1, T2, T3, T4, T5, T6>::T2(v),
            self matches Or::T3(v) ==> r == Or::<U, T1, T2, T3, T4, T5, T6>::T3(v),
            self matches Or::T4(v) ==> r == Or::<U, T1, T2, T3, T4, T5, T6>::T4(v),
            self matches Or::T5(v) ==> r == Or::<U, T1, T2, T3, T4, T5, T6>::T5(v),
            self matches Or::T6(v) ==> r == Or::<U, T1, T2, T3, T4, T5, T6>::T6(v),
    {
        match self {
            Or::T0(item) => Or::T0(map(item)),
            Or::T1(item) => Or::T1(item),
            Or::T2(item) => Or::T2(item),
            Or::T3(item) => Or::T3(item),
            Or::T4(item) => Or::T4(item),
            Or::T5(item) => Or::T5(item),
            Or::T6(item) => Or::T6(item),
        }
    }

    /// Transforms the value at case 1; any other case passes through unchanged.
    #[inline]
    pub fn map_t1<U, F: FnOnce(T1) -> U>(self, map: F) -> (r: Or<T0, U, T2, T3, T4, T5, T6>)
        requires
            self matches Or::T1(v) ==> call_requires(map, (v,)),
        ensures
            self matches Or::T1(v) ==> (r matches Or::T1(u) && call_ensures(map, (v,), u)),
            self matches Or::T0(v) ==> r == Or::<T0, U, T2, T3, T4, T5, T6>::T0(v),
            self matches Or::T2(v) ==> r == Or::<T0, U, T2, T3, T4, T5, T6>::T2(v),
            self matches Or::T3(v) ==> r == Or::<T0, U, T2, T3, T4, T5, T6>::T3(v),
            self matches Or::T4(v) ==> r == Or::<T0, U, T2, T3, T4, T5, T6>::T4(v),
            self matches Or::T5(v) ==> r == Or::<T0, U, T2, T3, T4, T5, T6>::T5(v),
            self matches Or::T6(v) ==> r == Or::<T0, U, T2, T3, T4, T5, T6>::T6(v),
    {
        match self {
            Or::T0(item) => Or::T0(item),
            Or::T1(item) => Or::T1(map(item)),
            Or::T2(item) => Or::T2(item),
            Or::T3(item) => Or::T3(item),
            Or::T4(item) => Or::T4(item),
            Or::T5(item) => Or::T5(item),
            Or::T6(item) => Or::T6(item),
        }
    }

    /// Transforms the value at case 2; any other case passes through unchanged.
    #[inline]
    pub fn map_t2<U, F: FnOnce(T2) -> U>(self, map: F) -> (r: Or<T0, T1, U, T3, T4, T5, T6>)
        requires
            self matches Or::T2(v) ==> call_requires(map, (v,)),
        ensures
            self matches Or::T2(v) ==> (r matches Or::T2(u) && call_ensures(map, (v,), u)),
            self matches Or::T0(v) ==> r == Or::<T0, T1, U, T3, T4, T5, T6>::T0(v),
            self matches Or::T1(v) ==> r == Or::<T0, T1, U, T3, T4, T5, T6>::T1(v),
            self matches Or::T3(v) ==> r == Or::<T0, T1, U, T3, T4, T5, T6>::T3(v),
            self matches Or::T4(v) ==> r == Or::<T0, T1, U, T3, T4, T5, T6>::T4(v),
            self matches Or::T5(v) ==> r == Or::<T0, T1, U, T3, T4, T5, T6>::T5(v),
            self matches Or::T6(v) ==> r == Or::<T0, T1, U, T3, T4, T5, T6>::T6(v),
    {
        match self {
            Or::T0(item) => Or::T0(item),
            Or::T1(item) => Or::T1(item),
            Or::T2(item) => Or::T2(map(item)),
            Or::T3(item) => Or::T3(item),
            Or::T4(item) => Or::T4(item),
            Or::T5(item) => Or::T5(item),
            Or::T6(item) => Or::T6(item),
        }
    }

    /// Transforms the value at case 3; any other case passes through unchanged.
    #[inline]
    pub fn map_t3<U, F: FnOnce(T3) -> U>(self, map: F) -> (r: Or<T0, T1, T2, U, T4, T5, T6>)
        requires
            self matches Or::T3(v) ==> call_requires(map, (v,)),
        ensures
            self matches Or::T3(v) ==> (r matches Or::T3(u) && call_ensures(map, (v,), u)),
            self matches Or::T0(v) ==> r == Or::<T0, T1, T2, U, T4, T5, T6>::T0(v),
            self matches Or::T1(v) ==> r == Or::<T0, T1, T2, U, T4, T5, T6>::T1(v),
            self matches Or::T2(v) ==> r == Or::<T0, T1, T2, U, T4, T5, T6>::T2(v),
            self matches Or::T4(v) ==> r == Or::<T0, T1, T2, U, T4, T5, T6>::T4(v),
            self matches Or::T5(v) ==> r == Or::<T0, T1, T2, U, T4, T5, T6>::T5(v),
            self matches Or::T6(v) ==> r == Or::<T0, T1, T2, U, T4, T5, T6>::T6(v),
    {
        match self {
            Or::T0(item) => Or::T0(item),
            Or::T1(item) => Or::T1(item),
            Or::T2(item) => Or::T2(item),
            Or::T3(item) => Or::T3(map(item)),
            Or::T4(item) => Or::T4(item),
            Or::T5(item) => Or::T5(item),
            Or::T6(item) => Or::T6(item),
        }
    }

    /// Transforms the value at case 4; any other case passes through unchanged.
    #[inline]
    pub fn map_t4<U, F: FnOnce(T4) -> U>(self, map: F) -> (r: Or<T0, T1, T2, T3, U, T5, T6>)
        requires
            self matches Or::T4(v) ==> call_requires(map, (v,)),
        ensures
            self matches Or::T4(v) ==> (r matches Or::T4(u) && call_ensures(map, (v,), u)),
            self matches Or::T0(v) ==> r == Or::<T0, T1, T2, T3, U, T5, T6>::T0(v),
            self matches Or::T1(v) ==> r == Or::<T0, T1, T2, T3, U, T5, T6>::T1(v),
            self matches Or::T2(v) ==> r == Or::<T0, T1, T2, T3, U, T5, T6>::T2(v),
            self matches Or::T3(v) ==> r == Or::<T0, T1, T2, T3, U, T5, T6>::T3(v),
            self matches Or::T5(v) ==> r == Or::<T0, T1, T2, T3, U, T5, T6>::T5(v),
            self matches Or::T6(v) ==> r == Or::<T0, T1, T2, T3, U, T5, T6>::T6(v),
    {
        match self {
            Or::T0(item) => Or::T0(item),
            Or::T1(item) => Or::T1(item),
            Or::T2(item) => Or::T2(item),
            Or::T3(item) => Or::T3(item),
            Or::T4(item) => Or::T4(map(item)),
            Or::T5(item) => Or::T5(item),
            Or::T6(item) => Or::T6(item),
        }
    }

    /// Transforms the value at case 5; any other case passes through unchanged.
    #[inline]
    pub fn map_t5<U, F: FnOnce(T5) -> U>(self, map: F) -> (r: Or<T0, T1, T2, T3, T4, U, T6>)
        requires
            self matches Or::T5(v) ==> call_requires(map, (v,)),
        ensures
            self matches Or::T5(v) ==> (r matches Or::T5(u) && call_ensures(map, (v,), u)),
            self matches Or::T0(v) ==> r == Or::<T0, T1, T2, T3, T4, U, T6>::T0(v),
            self matches Or::T1(v) ==> r == Or::<T0, T1, T2, T3, T4, U, T6>::T1(v),
            self matches Or::T2(v) ==> r == Or::<T0, T1, T2, T3, T4, U, T6>::T2(v),
            self matches Or::T3(v) ==> r == Or::<T0, T1, T2, T3, T4, U, T6>::T3(v),
            self matches Or::T4(v) ==> r == Or::<T0, T1, T2, T3, T4, U, T6>::T4(v),
            self matches Or::T6(v) ==> r == Or::<T0, T1, T2, T3, T4, U, T6>::T6(v),
    {
        match self {
            Or::T0(item) => Or::T0(item),
            Or::T1(item) => Or::T1(item),
            Or::T2(item) => Or::T2(item),
            Or::T3(item) => Or::T3(item),
            Or::T4(item) => Or::T4(item),
            Or::T5(item) => Or::T5(map(item)),
            Or::T6(item) => Or::T6(item),
        }
    }

    /// Transforms the value at case 6; any other case passes through unchanged.
    #[inline]
    pub fn map_t6<U, F: FnOnce(T6) -> U>(self, map: F) -> (r: Or<T0, T1, T2, T3, T4, T5, U>)
        requires
            self matches Or::T6(v) ==> call_requires(map, (v,)),
        ensures
            self matches Or::T6(v) ==> (r matches Or::T6(u) && call_ensures(map, (v,), u)),
            self matches Or::T0(v) ==> r == Or::<T0, T1, T2, T3, T4, T5, U>::T0(v),
            self matches Or::T1(v) ==> r == Or::<T0, T1, T2, T3, T4, T5, U>::T1(v),
            self matches Or::T2(v) ==> r == Or::<T0, T1, T2, T3, T4, T5, U>::T2(v),
            self matches Or::T3(v) ==> r == Or::<T0, T1, T2, T3, T4, T5, U>::T3(v),
            self matches Or::T4(v) ==> r == Or::<T0, T1, T2, T3, T4, T5, U>::T4(v),
            self matches Or::T5(v) ==> r == Or::<T0, T1, T2, T3, T4, T5, U>::T5(v),
    {
        match self {
            Or::T0(item) => Or::T0(item),
            Or::T1(item) => Or::T1(item),
            Or::T2(item) => Or::T2(item),
            Or::T3(item) => Or::T3(item),
            Or::T4(item) => Or::T4(item),
            Or::T5(item) => Or::T5(item),
            Or::T6(item) => Or::T6(map(item)),
        }
    }

    /// Converts the contained value, whichever case is active, into `T`.
    #[inline]
    pub fn into<T>(self) -> (r: T) where T0: Into<T>, T1: Into<T>, T2: Into<T>, T3: Into<T>, T4: Into<T>, T5: Into<T>, T6: Into<T>
        ensures
            self matches Or::T0(v) ==> (<T0 as IntoSpec<T>>::obeys_into_spec()
                ==> r == <T0 as IntoSpec<T>>::into_spec(v)),
            self matches Or::T1(v) ==> (<T1 as IntoSpec<T>>::obeys_into_spec()
                ==> r == <T1 as IntoSpec<T>>::into_spec(v)),
            self matches Or::T2(v) ==> (<T2 as IntoSpec<T>>::obeys_into_spec()
                ==> r == <T2 as IntoSpec<T>>::into_spec(v)),
            self matches Or::T3(v) ==> (<T3 as IntoSpec<T>>::obeys_into_spec()
                ==> r == <T3 as IntoSpec<T>>::into_spec(v)),
            self matches Or::T4(v) ==> (<T4 as IntoSpec<T>>::obeys_into_spec()
                ==> r == <T4 as IntoSpec<T>>::into_spec(v)),
            self matches Or::T5(v) ==> (<T5 as IntoSpec<T>>::obeys_into_spec()
                ==> r == <T5 as IntoSpec<T>>::into_spec(v)),
            self matches Or::T6(v) ==> (<T6 as IntoSpec<T>>::obeys_into_spec()
                ==> r == <T6 as IntoSpec<T>>::into_spec(v)),
    {
        match self {
            Or::T0(item) => item.into(),
            Or::T1(item) => item.into(),
            Or::T2(item) => item.into(),
            Or::T3(item) => item.into(),
            Or::T4(item) => item.into(),
            Or::T5(item) => item.into(),
            Or::T6(item) => item.into(),
        }
    }

    /// Projects a borrow of the sum into a sum of borrows, at the same case.
    #[inline]
    pub fn as_ref(&self) -> (r: Or<&T0, &T1, &T2, &T3, &T4, &T5, &T6>)
        ensures
            self matches Or::T0(v) ==> (r matches Or::T0(p) && *p == v),
            self matches Or::T1(v) ==> (r matches Or::T1(p) && *p == v),
            self matches Or::T2(v) ==> (r matches Or::T2(p) && *p == v),
            self matches Or::T3(v) ==> (r matches Or::T3(p) && *p == v),
            self matches Or::T4(v) ==> (r matches Or::T4(p) && *p == v),
            self matches Or::T5(v) ==> (r matches Or::T5(p) && *p == v),
            self matches Or::T6(v) ==> (r matches Or::T6(p) && *p == v),
    {
        match self {
            Or::T0(item) => Or::T0(item),
            Or::T1(item) => Or::T1(item),
            Or::T2(item) => Or::T2(item),
            Or::T3(item) => Or::T3(item),
            Or::T4(item) => Or::T4(item),
            Or::T5(item) => Or::T5(item),
            Or::T6(item) => Or::T6(item),
        }
    }

    /// Projects each tuple element into its own single-case sum, in position
    /// order.
    pub fn from_tuple(t: (T0, T1, T2, T3, T4, T5, T6)) -> (r: Vec<Or<T0, T1, T2, T3, T4, T5, T6>>)
        ensures
            r@ == Self::tuple_form(t),
    {
        let mut r: Vec<Or<T0, T1, T2, T3, T4, T5, T6>> = Vec::new();
        r.push(Or::T0(t.0));
        r.push(Or::T1(t.1));
        r.push(Or::T2(t.2));
        r.push(Or::T3(t.3));
        r.push(Or::T4(t.4));
        r.push(Or::T5(t.5));
        r.push(Or::T6(t.6));
        proof {
            assert(r@ =~= Self::tuple_form(t));
        }
        r
    }

    /// Rebuilds the tuple from a position-tagged collection; succeeds exactly
    /// when element `i` is active at case `i` for every position, and
    /// otherwise returns the collection unchanged.
    pub fn try_into_tuple(items: Vec<Or<T0, T1, T2, T3, T4, T5, T6>>) -> (r: Result<
        (T0, T1, T2, T3, T4, T5, T6),
        Vec<Or<T0, T1, T2, T3, T4, T5, T6>>,
    >)
        ensures
            r matches Ok(t) ==> Self::reconstruct(items@) == Some(t),
            r matches Err(e) ==> e@ == items@ && Self::reconstruct(items@) is None,
    {
        if items.len() == 7 && items[0].is_t0() && items[1].is_t1() && items[2].is_t2() && items[3].is_t3() && items[4].is_t4() && items[5].is_t5() && items[6].is_t6() {
            let mut items = items;
            let g = match items.pop() {
                Some(Or::T6(g)) => g,
                _ => vstd::pervasive::unreached(),
            };
            let f = match items.pop() {
                Some(Or::T5(f)) => f,
                _ => vstd::pervasive::unreached(),
            };
            let e = match items.pop() {
                Some(Or::T4(e)) => e,
                _ => vstd::pervasive::unreached(),
            };
            let d = match items.pop() {
                Some(Or::T3(d)) => d,
                _ => vstd::pervasive::unreached(),
            };
            let c = match items.pop() {
                Some(Or::T2(c)) => c,
                _ => vstd::pervasive::unreached(),
            };
            let b = match items.pop() {
                Some(Or::T1(b)) => b,
                _ => vstd::pervasive::unreached(),
            };
            let a = match items.pop() {
                Some(Or::T0(a)) => a,
                _ => vstd::pervasive::unreached(),
            };
            Ok((a, b, c, d, e, f, g))
        } else {
            Err(items)
        }
    }

    /// Reorders the collection by ascending case index; the contents are kept
    /// exactly, as a multiset.
    pub fn sort(items: &mut Vec<Or<T0, T1, T2, T3, T4, T5, T6>>)
        ensures
            final(items)@.len() == old(items)@.len(),
            final(items)@.to_multiset() == old(items)@.to_multiset(),
            Self::sorted(final(items)@),
    {
        let n = items.len();
        let mut out: Vec<Or<T0, T1, T2, T3, T4, T5, T6>> = Vec::new();
        while items.len() > 0
            invariant
                out@.len() + items@.len() == n,
                out@.to_multiset().add(items@.to_multiset()) =~= old(items)@.to_multiset(),
                Self::sorted(out@),
                forall|i: int, j: int| 0 <= i < out@.len() && 0 <= j < items@.len()
                    ==> out@[i].tag() <= items@[j].tag(),
            decreases items@.len(),
        {
            let mut best: usize = 0;
            let mut k: usize = 1;
            while k < items.len()
                invariant
                    0 < items@.len(),
                    0 <= best < items@.len(),
                    k <= items@.len(),
                    forall|m: int| 0 <= m < k ==> items@[best as int].tag() <= items@[m].tag(),
                decreases items@.len() - k,
            {
                if items[k].case() < items[best].case() {
                    best = k;
                }
                k = k + 1;
            }
            let ghost pre = items@;
            let ghost pre_out = out@;
            let x = items.remove(best);
            out.push(x);
            proof {
                assert(pre.contains(x));
                assert(pre.to_multiset().count(x) > 0);
                assert(pre.remove(best as int).to_multiset()
                    =~= pre.to_multiset().remove(x));
                assert(pre_out.push(x).to_multiset() =~= pre_out.to_multiset().insert(x));
                assert(out@.to_multiset().add(items@.to_multiset())
                    =~= pre_out.to_multiset().add(pre.to_multiset()));
                assert forall|j: int| 0 <= j < items@.len()
                    implies x.tag() <= items@[j].tag() by {
                    if j < best {
                        assert(items@[j] == pre[j]);
                    } else {
                        assert(items@[j] == pre[j + 1]);
                    }
                }
            }
        }
        proof {
            assert(items@.to_multiset() =~= Multiset::empty());
            assert(out@.to_multiset().add(items@.to_multiset()) =~= out@.to_multiset());
        }
        *items = out;
    }

    /// Converts to the eight-case sum with the same prefix of positions,
    /// keeping the case index and the contained value.
    #[inline]
    pub fn widen8<T7>(self) -> (r: crate::or8::Or<T0, T1, T2, T3, T4, T5, T6, T7>)
        ensures
            r == self.widened8::<T7>(),
    {
        match self {
            Or::T0(item) => crate::or8::Or::T0(item),
            Or::T1(item) => crate::or8::Or::T1(item),
            Or::T2(item) => crate::or8::Or::T2(item),
            Or::T3(item) => crate::or8::Or::T3(item),
            Or::T4(item) => crate::or8::Or::T4(item),
            Or::T5(item) => crate::or8::Or::T5(item),
            Or::T6(item) => crate::or8::Or::T6(item),
        }
    }

    /// What [`Or::widen8`] returns.
    pub open spec fn widened8<T7>(self) -> crate::or8::Or<T0, T1, T2, T3, T4, T5, T6, T7> {
        match self {
            Or::T0(item) => crate::or8::Or::T0(item),
            Or::T1(item) => crate::or8::Or::T1(item),
            Or::T2(item) => crate::or8::Or::T2(item),
            Or::T3(item) => crate::or8::Or::T3(item),
            Or::T4(item) => crate::or8::Or::T4(item),
            Or::T5(item) => crate::or8::Or::T5(item),
            Or::T6(item) => crate::or8::Or::T6(item),
        }
    }

    /// Converts to the one-case sum covering the shared prefix of positions;
    /// succeeds exactly when the active case lies within that prefix, and
    /// otherwise returns the whole value unchanged.
    #[inline]
    pub fn narrow1(self) -> (r: Result<crate::or1::Or<T0>, Or<T0, T1, T2, T3, T4, T5, T6>>)
        ensures
            r == self.narrowed1(),
    {
        match self {
            Or::T0(item) => Ok(crate::or1::Or::T0(item)),
            _ => Err(self),
        }
    }

    /// What [`Or::narrow1`] returns.
    pub open spec fn narrowed1(self) -> Result<crate::or1::Or<T0>, Or<T0, T1, T2, T3, T4, T5, T6>> {
        match self {
            Or::T0(item) => Ok(crate::or1::Or::T0(item)),
            _ => Err(self),
        }
    }

    /// Converts to the two-case sum covering the shared prefix of positions;
    /// succeeds exactly when the active case lies within that prefix, and
    /// otherwise returns the whole value unchanged.
    #[inline]
    pub fn narrow2(self) -> (r: Result<crate::or2::Or<T0, T1>, Or<T0, T1, T2, T3, T4, T5, T6>>)
        ensures
            r == self.narrowed2(),
    {
        match self {
            Or::T0(item) => Ok(crate::or2::Or::T0(item)),
            Or::T1(item) => Ok(crate::or2::Or::T1(item)),
            _ => Err(self),
        }
    }

    /// What [`Or::narrow2`] returns.
    pub open spec fn narrowed2(self) -> Result<crate::or2::Or<T0, T1>, Or<T0, T1, T2, T3, T4, T5, T6>> {
        match self {
            Or::T0(item) => Ok(crate::or2::Or::T0(item)),
            Or::T1(item) => Ok(crate::or2::Or::T1(item)),
            _ => Err(self),
        }
    }

    /// Converts to the three-case sum covering the shared prefix of positions;
    /// succeeds exactly when the active case lies within that prefix, and
    /// otherwise returns the whole value unchanged.
    #[inline]
    pub fn narrow3(self) -> (r: Result<crate::or3::Or<T0, T1, T2>, Or<T0, T1, T2, T3, T4, T5, T6>>)
        ensures
            r == self.narrowed3(),
    {
        match self {
            Or::T0(item) => Ok(crate::or3::Or::T0(item)),
            Or::T1(item) => Ok(crate::or3::Or::T1(item)),
            Or::T2(item) => Ok(crate::or3::Or::T2(item)),
            _ => Err(self),
        }
    }

    /// What [`Or::narrow3`] returns.
    pub open spec fn narrowed3(self) -> Result<crate::or3::Or<T0, T1, T2>, Or<T0, T1, T2, T3, T4, T5, T6>> {
        match self {
            Or::T0(item) => Ok(crate::or3::Or::T0(item)),
            Or::T1(item) => Ok(crate::or3::Or::T1(item)),
            Or::T2(item) => Ok(crate::or3::Or::T2(item)),
            _ => Err(self),
        }
    }

    /// Converts to the four-case sum covering the shared prefix of positions;
    /// succeeds exactly when the active case lies within that prefix, and
    /// otherwise returns the whole value unchanged.
    #[inline]
    pub fn narrow4(self) -> (r: Result<crate::or4::Or<T0, T1, T2, T3>, Or<T0, T1, T2, T3, T4, T5, T6>>)
        ensures
            r == self.narrowed4(),
    {
        match self {
            Or::T0(item) => Ok(crate::or4::Or::T0(item)),
            Or::T1(item) => Ok(crate::or4::Or::T1(item)),
            Or::T2(item) => Ok(crate::or4::Or::T2(item)),
            Or::T3(item) => Ok(crate::or4::Or::T3(item)),
            _ => Err(self),
        }
    }

    /// What [`Or::narrow4`] returns.
    pub open spec fn narrowed4(self) -> Result<crate::or4::Or<T0, T1, T2, T3>, Or<T0, T1, T2, T3, T4, T5, T6>> {
        match self {
            Or::T0(item) => Ok(crate::or4::Or::T0(item)),
            Or::T1(item) => Ok(crate::or4::Or::T1(item)),
            Or::T2(item) => Ok(crate::or4::Or::T2(item)),
            Or::T3(item) => Ok(crate::or4::Or::T3(item)),
            _ => Err(self),
        }
    }

    /// Converts to the five-case sum covering the shared prefix of positions;
    /// succeeds exactly when the active case lies within that prefix, and
    /// otherwise returns the whole value unchanged.
    #[inline]
    pub fn narrow5(self) -> (r: Result<crate::or5::Or<T0, T1, T2, T3, T4>, Or<T0, T1, T2, T3, T4, T5, T6>>)
        ensures
            r == self.narrowed5(),
    {
        match self {
            Or::T0(item) => Ok(crate::or5::Or::T0(item)),
            Or::T1(item) => Ok(crate::or5::Or::T1(item)),
            Or::T2(item) => Ok(crate::or5::Or::T2(item)),
            Or::T3(item) => Ok(crate::or5::Or::T3(item)),
            Or::T4(item) => Ok(crate::or5::Or::T4(item)),
            _ => Err(self),
        }
    }

    /// What [`Or::narrow5`] returns.
    pub open spec fn narrowed5(self) -> Result<crate::or5::Or<T0, T1, T2, T3, T4>, Or<T0, T1, T2, T3, T4, T5, T6>> {
        match self {
            Or::T0(item) => Ok(crate::or5::Or::T0(item)),
            Or::T1(item) => Ok(crate::or5::Or::T1(item)),
            Or::T2(item) => Ok(crate::or5::Or::T2(item)),
            Or::T3(item) => Ok(crate::or5::Or::T3(item)),
            Or::T4(item) => Ok(crate::or5::Or::T4(item)),
            _ => Err(self),
        }
    }

    /// Converts to the six-case sum covering the shared prefix of positions;
    /// succeeds exactly when the active case lies within that prefix, and
    /// otherwise returns the whole value unchanged.
    #[inline]
    pub fn narrow6(self) -> (r: Result<crate::or6::Or<T0, T1, T2, T3, T4, T5>, Or<T0, T1, T2, T3, T4, T5, T6>>)
        ensures
            r == self.narrowed6(),
    {
        match self {
            Or::T0(item) => Ok(crate::or6::Or::T0(item)),
            Or::T1(item) => Ok(crate::or6::Or::T1(item)),
            Or::T2(item) => Ok(crate::or6::Or::T2(item)),
            Or::T3(item) => Ok(crate::or6::Or::T3(item)),
            Or::T4(item) => Ok(crate::or6::Or::T4(item)),
            Or::T5(item) => Ok(crate::or6::Or::T5(item)),
            _ => Err(self),
        }
    }

    /// What [`Or::narrow6`] returns.
    pub open spec fn narrowed6(self) -> Result<crate::or6::Or<T0, T1, T2, T3, T4, T5>, Or<T0, T1, T2, T3, T4, T5, T6>> {
        match self {
            Or::T0(item) => Ok(crate::or6::Or::T0(item)),
            Or::T1(item) => Ok(crate::or6::Or::T1(item)),
            Or::T2(item) => Ok(crate::or6::Or::T2(item)),
            Or::T3(item) => Ok(crate::or6::Or::T3(item)),
            Or::T4(item) => Ok(crate::or6::Or::T4(item)),
            Or::T5(item) => Ok(crate::or6::Or::T5(item)),
            _ => Err(self),
        }
    }
}

impl<'a, T0, T1, T2, T3, T4, T5, T6> Or<&'a T0, &'a T1, &'a T2, &'a T3, &'a T4, &'a T5, &'a T6> {
    /// Clones the borrowed contents into an owned sum at the same case.
    #[inline]
    pub fn cloned(self) -> (r: Or<T0, T1, T2, T3, T4, T5, T6>) where T0: Clone, T1: Clone, T2: Clone, T3: Clone, T4: Clone, T5: Clone, T6: Clone
        ensures
            self matches Or::T0(p) ==> (r matches Or::T0(v) && cloned(*p, v)),
            self matches Or::T1(p) ==> (r matches Or::T1(v) && cloned(*p, v)),
            self matches Or::T2(p) ==> (r matches Or::T2(v) && cloned(*p, v)),
            self matches Or::T3(p) ==> (r matches Or::T3(v) && cloned(*p, v)),
            self matches Or::T4(p) ==> (r matches Or::T4(v) && cloned(*p, v)),
            self matches Or::T5(p) ==> (r matches Or::T5(v) && cloned(*p, v)),
            self matches Or::T6(p) ==> (r matches Or::T6(v) && cloned(*p, v)),
    {
        match self {
            Or::T0(item) => Or::T0(item.clone()),
            Or::T1(item) => Or::T1(item.clone()),
            Or::T2(item) => Or::T2(item.clone()),
            Or::T3(item) => Or::T3(item.clone()),
            Or::T4(item) => Or::T4(item.clone()),
            Or::T5(item) => Or::T5(item.clone()),
            Or::T6(item) => Or::T6(item.clone()),
        }
    }

    /// Copies the borrowed contents into an owned sum at the same case.
    #[inline]
    pub fn copied(self) -> (r: Or<T0, T1, T2, T3, T4, T5, T6>) where T0: Copy, T1: Copy, T2: Copy, T3: Copy, T4: Copy, T5: Copy, T6: Copy
        ensures
            self matches Or::T0(p) ==> r == Or::<T0, T1, T2, T3, T4, T5, T6>::T0(*p),
            self matches Or::T1(p) ==> r == Or::<T0, T1, T2, T3, T4, T5, T6>::T1(*p),
            self matches Or::T2(p) ==> r == Or::<T0, T1, T2, T3, T4, T5, T6>::T2(*p),
            self matches Or::T3(p) ==> r == Or::<T0, T1, T2, T3, T4, T5, T6>::T3(*p),
            self matches Or::T4(p) ==> r == Or::<T0, T1, T2, T3, T4, T5, T6>::T4(*p),
            self matches Or::T5(p) ==> r == Or::<T0, T1, T2, T3, T4, T5, T6>::T5(*p),
            self matches Or::T6(p) ==> r == Or::<T0, T1, T2, T3, T4, T5, T6>::T6(*p),
    {
        match self {
            Or::T0(item) => Or::T0(*item),
            Or::T1(item) => Or::T1(*item),
            Or::T2(item) => Or::T2(*item),
            Or::T3(item) => Or::T3(*item),
            Or::T4(item) => Or::T4(*item),
            Or::T5(item) => Or::T5(*item),
            Or::T6(item) => Or::T6(*item),
        }
    }
}

impl<T> Or<T, T, T, T, T, T, T> {
    /// Extracts the contained value without a case test; every case of this
    /// sum holds the same type, so no case can fail to supply one.
    #[inline]
    pub fn into_inner(self) -> (r: T)
        ensures
            self matches Or::T0(v) ==> r == v,
            self matches Or::T1(v) ==> r == v,
            self matches Or::T2(v) ==> r == v,
            self matches Or::T3(v) ==> r == v,
            self matches Or::T4(v) ==> r == v,
            self matches Or::T5(v) ==> r == v,
            self matches Or::T6(v) ==> r == v,
    {
        match self {
            Or::T0(item) => item,
            Or::T1(item) => item,
            Or::T2(item) => item,
            Or::T3(item) => item,
            Or::T4(item) => item,
            Or::T5(item) => item,
            Or::T6(item) => item,
        }
    }

    /// Transforms the contained value while preserving the active case.
    #[inline]
    pub fn map<U, F: FnOnce(T) -> U>(self, map: F) -> (r: Or<U, U, U, U, U, U, U>)
        requires
            self matches Or::T0(v) ==> call_requires(map, (v,)),
            self matches Or::T1(v) ==> call_requires(map, (v,)),
            self matches Or::T2(v) ==> call_requires(map, (v,)),
            self matches Or::T3(v) ==> call_requires(map, (v,)),
            self matches Or::T4(v) ==> call_requires(map, (v,)),
            self matches Or::T5(v) ==> call_requires(map, (v,)),
            self matches Or::T6(v) ==> call_requires(map, (v,)),
        ensures
            r.tag() == self.tag(),
            self matches Or::T0(v) ==> (r matches Or::T0(u) && call_ensures(map, (v,), u)),
            self matches Or::T1(v) ==> (r matches Or::T1(u) && call_ensures(map, (v,), u)),
            self matches Or::T2(v) ==> (r matches Or::T2(u) && call_ensures(map, (v,), u)),
            self matches Or::T3(v) ==> (r matches Or::T3(u) && call_ensures(map, (v,), u)),
            self matches Or::T4(v) ==> (r matches Or::T4(u) && call_ensures(map, (v,), u)),
            self matches Or::T5(v) ==> (r matches Or::T5(u) && call_ensures(map, (v,), u)),
            self matches Or::T6(v) ==> (r matches Or::T6(u) && call_ensures(map, (v,), u)),
    {
        match self {
            Or::T0(item) => Or::T0(map(item)),
            Or::T1(item) => Or::T1(map(item)),
            Or::T2(item) => Or::T2(map(item)),
            Or::T3(item) => Or::T3(map(item)),
            Or::T4(item) => Or::T4(map(item)),
            Or::T5(item) => Or::T5(map(item)),
            Or::T6(item) => Or::T6(map(item)),
        }
    }

    /// Like [`Or::map`], threading auxiliary state into the transform.
    #[inline]
    pub fn map_with<S, U, F: FnOnce(S, T) -> U>(self, state: S, map: F) -> (r: Or<U, U, U, U, U, U, U>)
        requires
            self matches Or::T0(v) ==> call_requires(map, (state, v)),
            self matches Or::T1(v) ==> call_requires(map, (state, v)),
            self matches Or::T2(v) ==> call_requires(map, (state, v)),
            self matches Or::T3(v) ==> call_requires(map, (state, v)),
            self matches Or::T4(v) ==> call_requires(map, (state, v)),
            self matches Or::T5(v) ==> call_requires(map, (state, v)),
            self matches Or::T6(v) ==> call_requires(map, (state, v)),
        ensures
            r.tag() == self.tag(),
            self matches Or::T0(v) ==> (r matches Or::T0(u) && call_ensures(map, (state, v), u)),
            self matches Or::T1(v) ==> (r matches Or::T1(u) && call_ensures(map, (state, v), u)),
            self matches Or::T2(v) ==> (r matches Or::T2(u) && call_ensures(map, (state, v), u)),
            self matches Or::T3(v) ==> (r matches Or::T3(u) && call_ensures(map, (state, v), u)),
            self matches Or::T4(v) ==> (r matches Or::T4(u) && call_ensures(map, (state, v), u)),
            self matches Or::T5(v) ==> (r matches Or::T5(u) && call_ensures(map, (state, v), u)),
            self matches Or::T6(v) ==> (r matches Or::T6(u) && call_ensures(map, (state, v), u)),
    {
        match self {
            Or::T0(item) => Or::T0(map(state, item)),
            Or::T1(item) => Or::T1(map(state, item)),
            Or::T2(item) => Or::T2(map(state, item)),
            Or::T3(item) => Or::T3(map(state, item)),
            Or::T4(item) => Or::T4(map(state, item)),
            Or::T5(item) => Or::T5(map(state, item)),
            Or::T6(item) => Or::T6(map(state, item)),
        }
    }
}

impl<T0, T1, T2, T3, T4, T5, T6> Is for Or<T0, T1, T2, T3, T4, T5, T6> {
    #[inline]
    fn is(&self, index: usize) -> (r: bool)
        ensures
            r == (index == self.tag()),
    {
        match (index, self) {
            (0, Or::T0(_)) => true,
            (1, Or::T1(_)) => true,
            (2, Or::T2(_)) => true,
            (3, Or::T3(_)) => true,
            (4, Or::T4(_)) => true,
            (5, Or::T5(_)) => true,
            (6, Or::T6(_)) => true,
            _ => false,
        }
    }
}

impl<T0, T1, T2, T3, T4, T5, T6> Count for Or<T0, T1, T2, T3, T4, T5, T6> {
    const COUNT: usize = 7;
}

impl<T0, T1, T2, T3, T4, T5, T6> Count for (T0, T1, T2, T3, T4, T5, T6) {
    const COUNT: usize = 7;
}

impl<T0, T1, T2, T3, T4, T5, T6> At<0> for Or<T0, T1, T2, T3, T4, T5, T6> {
    type Item = Option<T0>;

    open spec fn at_spec(self) -> Option<T0> {
        match self {
            Or::T0(item) => Some(item),
            _ => None,
        }
    }

    #[inline]
    fn at(self) -> Option<T0> {
        match self {
            Or::T0(item) => Some(item),
            _ => None,
        }
    }
}

impl<T0, T1, T2, T3, T4, T5, T6> At<1> for Or<T0, T1, T2, T3, T4, T5, T6> {
    type Item = Option<T1>;

    open spec fn at_spec(self) -> Option<T1> {
        match self {
            Or::T1(item) => Some(item),
            _ => None,
        }
    }

    #[inline]
    fn at(self) -> Option<T1> {
        match self {
            Or::T1(item) => Some(item),
            _ => None,
        }
    }
}

impl<T0, T1, T2, T3, T4, T5, T6> At<2> for Or<T0, T1, T2, T3, T4, T5, T6> {
    type Item = Option<T2>;

    open spec fn at_spec(self) -> Option<T2> {
        match self {
            Or::T2(item) => Some(item),
            _ => None,
        }
    }

    #[inline]
    fn at(self) -> Option<T2> {
        match self {
            Or::T2(item) => Some(item),
            _ => None,
        }
    }
}

impl<T0, T1, T2, T3, T4, T5, T6> At<3> for Or<T0, T1, T2, T3, T4, T5, T6> {
    type Item = Option<T3>;

    open spec fn at_spec(self) -> Option<T3> {
        match self {
            Or::T3(item) => Some(item),
            _ => None,
        }
    }

    #[inline]
    fn at(self) -> Option<T3> {
        match self {
            Or::T3(item) => Some(item),
            _ => None,
        }
    }
}

impl<T0, T1, T2, T3, T4, T5, T6> At<4> for Or<T0, T1, T2, T3, T4, T5, T6> {
    type Item = Option<T4>;

    open spec fn at_spec(self) -> Option<T4> {
        match self {
            Or::T4(item) => Some(item),
            _ => None,
        }
    }

    #[inline]
    fn at(self) -> Option<T4> {
        match self {
            Or::T4(item) => Some(item),
            _ => None,
        }
    }
}

impl<T0, T1, T2, T3, T4, T5, T6> At<5> for Or<T0, T1, T2, T3, T4, T5, T6> {
    type Item = Option<T5>;

    open spec fn at_spec(self) -> Option<T5> {
        match self {
            Or::T5(item) => Some(item),
            _ => None,
        }
    }

    #[inline]
    fn at(self) -> Option<T5> {
        match self {
            Or::T5(item) => Some(item),
            _ => None,
        }
    }
}

impl<T0, T1, T2, T3, T4, T5, T6> At<6> for Or<T0, T1, T2, T3, T4, T5, T6> {
    type Item = Option<T6>;

    open spec fn at_spec(self) -> Option<T6> {
        match self {
            Or::T6(item) => Some(item),
            _ => None,
        }
    }

    #[inline]
    fn at(self) -> Option<T6> {
        match self {
            Or::T6(item) => Some(item),
            _ => None,
        }
    }
}

impl<'a, T0, T1, T2, T3, T4, T5, T6> At<0> for &'a Or<T0, T1, T2, T3, T4, T5, T6> {
    type Item = Option<&'a T0>;

    open spec fn at_spec(self) -> Option<&'a T0> {
        match self {
            Or::T0(item) => Some(item),
            _ => None,
        }
    }

    #[inline]
    fn at(self) -> Option<&'a T0> {
        match self {
            Or::T0(item) => Some(item),
            _ => None,
        }
    }
}

impl<'a, T0, T1, T2, T3, T4, T5, T6> At<1> for &'a Or<T0, T1, T2, T3, T4, T5, T6> {
    type Item = Option<&'a T1>;

    open spec fn at_spec(self) -> Option<&'a T1> {
        match self {
            Or::T1(item) => Some(item),
            _ => None,
        }
    }

    #[inline]
    fn at(self) -> Option<&'a T1> {
        match self {
            Or::T1(item) => Some(item),
            _ => None,
        }
    }
}

impl<'a, T0, T1, T2, T3, T4, T5, T6> At<2> for &'a Or<T0, T1, T2, T3, T4, T5, T6> {
    type Item = Option<&'a T2>;

    open spec fn at_spec(self) -> Option<&'a T2> {
        match self {
            Or::T2(item) => Some(item),
            _ => None,
        }
    }

    #[inline]
    fn at(self) -> Option<&'a T2> {
        match self {
            Or::T2(item) => Some(item),
            _ => None,
        }
    }
}

impl<'a, T0, T1, T2, T3, T4, T5, T6> At<3> for &'a Or<T0, T1, T2, T3, T4, T5, T6> {
    type Item = Option<&'a T3>;

    open spec fn at_spec(self) -> Option<&'a T3> {
        match self {
            Or::T3(item) => Some(item),
            _ => None,
        }
    }

    #[inline]
    fn at(self) -> Option<&'a T3> {
        match self {
            Or::T3(item) => Some(item),
            _ => None,
        }
    }
}

impl<'a, T0, T1, T2, T3, T4, T5, T6> At<4> for &'a Or<T0, T1, T2, T3, T4, T5, T6> {
    type Item = Option<&'a T4>;

    open spec fn at_spec(self) -> Option<&'a T4> {
        match self {
            Or::T4(item) => Some(item),
            _ => None,
        }
    }

    #[inline]
    fn at(self) -> Option<&'a T4> {
        match self {
            Or::T4(item) => Some(item),
            _ => None,
        }
    }
}

impl<'a, T0, T1, T2, T3, T4, T5, T6> At<5> for &'a Or<T0, T1, T2, T3, T4, T5, T6> {
    type Item = Option<&'a T5>;

    open spec fn at_spec(self) -> Option<&'a T5> {
        match self {
            Or::T5(item) => Some(item),
            _ => None,
        }
    }

    #[inline]
    fn at(self) -> Option<&'a T5> {
        match self {
            Or::T5(item) => Some(item),
            _ => None,
        }
    }
}

impl<'a, T0, T1, T2, T3, T4, T5, T6> At<6> for &'a Or<T0, T1, T2, T3, T4, T5, T6> {
    type Item = Option<&'a T6>;

    open spec fn at_spec(self) -> Option<&'a T6> {
        match self {
            Or::T6(item) => Some(item),
            _ => None,
        }
    }

    #[inline]
    fn at(self) -> Option<&'a T6> {
        match self {
            Or::T6(item) => Some(item),
            _ => None,
        }
    }
}

impl<T0, T1, T2, T3, T4, T5, T6> At<0> for (T0, T1, T2, T3, T4, T5, T6) {
    type Item = T0;

    open spec fn at_spec(self) -> T0 {
        self.0
    }

    #[inline]
    fn at(self) -> T0 {
        self.0
    }
}

impl<T0, T1, T2, T3, T4, T5, T6> At<1> for (T0, T1, T2, T3, T4, T5, T6) {
    type Item = T1;

    open spec fn at_spec(self) -> T1 {
        self.1
    }

    #[inline]
    fn at(self) -> T1 {
        self.1
    }
}

impl<T0, T1, T2, T3, T4, T5, T6> At<2> for (T0, T1, T2, T3, T4, T5, T6) {
    type Item = T2;

    open spec fn at_spec(self) -> T2 {
        self.2
    }

    #[inline]
    fn at(self) -> T2 {
        self.2
    }
}

impl<T0, T1, T2, T3, T4, T5, T6> At<3> for (T0, T1, T2, T3, T4, T5, T6) {
    type Item = T3;

    open spec fn at_spec(self) -> T3 {
        self.3
    }

    #[inline]
    fn at(self) -> T3 {
        self.3
    }
}

impl<T0, T1, T2, T3, T4, T5, T6> At<4> for (T0, T1, T2, T3, T4, T5, T6) {
    type Item = T4;

    open spec fn at_spec(self) -> T4 {
        self.4
    }

    #[inline]
    fn at(self) -> T4 {
        self.4
    }
}

impl<T0, T1, T2, T3, T4, T5, T6> At<5> for (T0, T1, T2, T3, T4, T5, T6) {
    type Item = T5;

    open spec fn at_spec(self) -> T5 {
        self.5
    }

    #[inline]
    fn at(self) -> T5 {
        self.5
    }
}

impl<T0, T1, T2, T3, T4, T5, T6> At<6> for (T0, T1, T2, T3, T4, T5, T6) {
    type Item = T6;

    open spec fn at_spec(self) -> T6 {
        self.6
    }

    #[inline]
    fn at(self) -> T6 {
        self.6
    }
}

impl<'a, T0, T1, T2, T3, T4, T5, T6> At<0> for &'a (T0, T1, T2, T3, T4, T5, T6) {
    type Item = &'a T0;

    open spec fn at_spec(self) -> &'a T0 {
        &self.0
    }

    #[inline]
    fn at(self) -> &'a T0 {
        &self.0
    }
}

impl<'a, T0, T1, T2, T3, T4, T5, T6> At<1> for &'a (T0, T1, T2, T3, T4, T5, T6) {
    type Item = &'a T1;

    open spec fn at_spec(self) -> &'a T1 {
        &self.1
    }

    #[inline]
    fn at(self) -> &'a T1 {
        &self.1
    }
}

impl<'a, T0, T1, T2, T3, T4, T5, T6> At<2> for &'a (T0, T1, T2, T3, T4, T5, T6) {
    type Item = &'a T2;

    open spec fn at_spec(self) -> &'a T2 {
        &self.2
    }

    #[inline]
    fn at(self) -> &'a T2 {
        &self.2
    }
}

impl<'a, T0, T1, T2, T3, T4, T5, T6> At<3> for &'a (T0, T1, T2, T3, T4, T5, T6) {
    type Item = &'a T3;

    open spec fn at_spec(self) -> &'a T3 {
        &self.3
    }

    #[inline]
    fn at(self) -> &'a T3 {
        &self.3
    }
}

impl<'a, T0, T1, T2, T3, T4, T5, T6> At<4> for &'a (T0, T1, T2, T3, T4, T5, T6) {
    type Item = &'a T4;

    open spec fn at_spec(self) -> &'a T4 {
        &self.4
    }

    #[inline]
    fn at(self) -> &'a T4 {
        &self.4
    }
}

impl<'a, T0, T1, T2, T3, T4, T5, T6> At<5> for &'a (T0, T1, T2, T3, T4, T5, T6) {
    type Item = &'a T5;

    open spec fn at_spec(self) -> &'a T5 {
        &self.5
    }

    #[inline]
    fn at(self) -> &'a T5 {
        &self.5
    }
}

impl<'a, T0, T1, T2, T3, T4, T5, T6> At<6> for &'a (T0, T1, T2, T3, T4, T5, T6) {
    type Item = &'a T6;

    open spec fn at_spec(self) -> &'a T6 {
        &self.6
    }

    #[inline]
    fn at(self) -> &'a T6 {
        &self.6
    }
}

/// Exactly one case of a seven-case sum is active: the case index is always
/// in range and determines the variant.
pub proof fn lemma_case_exclusive<T0, T1, T2, T3, T4, T5, T6>(v: Or<T0, T1, T2, T3, T4, T5, T6>)
    ensures
        v.tag() < 7,
        v is T0 <==> v.tag() == 0,
        v is T1 <==> v.tag() == 1,
        v is T2 <==> v.tag() == 2,
        v is T3 <==> v.tag() == 3,
        v is T4 <==> v.tag() == 4,
        v is T5 <==> v.tag() == 5,
        v is T6 <==> v.tag() == 6,
{
}

/// Projecting a tuple and rebuilding it recovers the tuple exactly.
pub proof fn lemma_round_trip<T0, T1, T2, T3, T4, T5, T6>(t: (T0, T1, T2, T3, T4, T5, T6))
    ensures
        Or::<T0, T1, T2, T3, T4, T5, T6>::reconstruct(Or::<T0, T1, T2, T3, T4, T5, T6>::tuple_form(t)) == Some(t),
{
}

/// A collection with a duplicated case index never rebuilds into a tuple.
pub proof fn lemma_duplicate_fails<T0, T1, T2, T3, T4, T5, T6>(s: Seq<Or<T0, T1, T2, T3, T4, T5, T6>>, i: int, j: int)
    requires
        0 <= i < j < s.len(),
        s[i].tag() == s[j].tag(),
    ensures
        Or::<T0, T1, T2, T3, T4, T5, T6>::reconstruct(s) is None,
{
}

/// A sorted collection with exactly the contents of a projected tuple is that
/// projection itself, so rebuilding it recovers the tuple.
pub proof fn lemma_sorted_reconstruct<T0, T1, T2, T3, T4, T5, T6>(t: (T0, T1, T2, T3, T4, T5, T6), s: Seq<Or<T0, T1, T2, T3, T4, T5, T6>>)
    requires
        s.to_multiset() == Or::<T0, T1, T2, T3, T4, T5, T6>::tuple_form(t).to_multiset(),
        Or::<T0, T1, T2, T3, T4, T5, T6>::sorted(s),
    ensures
        s == Or::<T0, T1, T2, T3, T4, T5, T6>::tuple_form(t),
        Or::<T0, T1, T2, T3, T4, T5, T6>::reconstruct(s) == Some(t),
{
    let f = Or::<T0, T1, T2, T3, T4, T5, T6>::tuple_form(t);
    assert(s.len() == s.to_multiset().len());
    assert(f.len() == f.to_multiset().len());
    assert(f.contains(f[0]));
    assert(f.contains(f[1]));
    assert(f.contains(f[2]));
    assert(f.contains(f[3]));
    assert(f.contains(f[4]));
    assert(f.contains(f[5]));
    assert(f.contains(f[6]));
    assert(f.to_multiset().count(f[0]) > 0);
    assert(f.to_multiset().count(f[1]) > 0);
    assert(f.to_multiset().count(f[2]) > 0);
    assert(f.to_multiset().count(f[3]) > 0);
    assert(f.to_multiset().count(f[4]) > 0);
    assert(f.to_multiset().count(f[5]) > 0);
    assert(f.to_multiset().count(f[6]) > 0);
    assert(s.contains(f[0]));
    assert(s.contains(f[1]));
    assert(s.contains(f[2]));
    assert(s.contains(f[3]));
    assert(s.contains(f[4]));
    assert(s.contains(f[5]));
    assert(s.contains(f[6]));
    let i0 = choose|i: int| 0 <= i < s.len() && s[i] == f[0];
    let i1 = choose|i: int| 0 <= i < s.len() && s[i] == f[1];
    let i2 = choose|i: int| 0 <= i < s.len() && s[i] == f[2];
    let i3 = choose|i: int| 0 <= i < s.len() && s[i] == f[3];
    let i4 = choose|i: int| 0 <= i < s.len() && s[i] == f[4];
    let i5 = choose|i: int| 0 <= i < s.len() && s[i] == f[5];
    let i6 = choose|i: int| 0 <= i < s.len() && s[i] == f[6];
    assert(s[i0] == f[0]);
    assert(s[i1] == f[1]);
    assert(s[i2] == f[2]);
    assert(s[i3] == f[3]);
    assert(s[i4] == f[4]);
    assert(s[i5] == f[5]);
    assert(s[i6] == f[6]);
    assert(i0 < i1) by {
        if i1 <= i0 {
            assert(s[i1].tag() <= s[i0].tag());
        }
    }
    assert(i1 < i2) by {
        if i2 <= i1 {
            assert(s[i2].tag() <= s[i1].tag());
        }
    }
    assert(i2 < i3) by {
        if i3 <= i2 {
            assert(s[i3].tag() <= s[i2].tag());
        }
    }
    assert(i3 < i4) by {
        if i4 <= i3 {
            assert(s[i4].tag() <= s[i3].tag());
        }
    }
    assert(i4 < i5) by {
        if i5 <= i4 {
            assert(s[i5].tag() <= s[i4].tag());
        }
    }
    assert(i5 < i6) by {
        if i6 <= i5 {
            assert(s[i6].tag() <= s[i5].tag());
        }
    }
    assert(s =~= f);
}

/// Widening keeps the case index and the contained value (stated here for
/// the conversions into the seven-case sum).
pub proof fn lemma_widen7_preserves<T0, T1, T2, T3, T4, T5, T6>(
    v1: crate::or1::Or<T0>,
    v2: crate::or2::Or<T0, T1>,
    v3: crate::or3::Or<T0, T1, T2>,
    v4: crate::or4::Or<T0, T1, T2, T3>,
    v5: crate::or5::Or<T0, T1, T2, T3, T4>,
    v6: crate::or6::Or<T0, T1, T2, T3, T4, T5>,
)
    ensures
        v1.widened7::<T1, T2, T3, T4, T5, T6>().tag() == v1.tag(),
        v2.widened7::<T2, T3, T4, T5, T6>().tag() == v2.tag(),
        v3.widened7::<T3, T4, T5, T6>().tag() == v3.tag(),
        v4.widened7::<T4, T5, T6>().tag() == v4.tag(),
        v5.widened7::<T5, T6>().tag() == v5.tag(),
        v6.widened7::<T6>().tag() == v6.tag(),
        v1 matches crate::or1::Or::T0(x)
            ==> v1.widened7::<T1, T2, T3, T4, T5, T6>() == Or::<T0, T1, T2, T3, T4, T5, T6>::T0(x),
        v2 matches crate::or2::Or::T0(x)
            ==> v2.widened7::<T2, T3, T4, T5, T6>() == Or::<T0, T1, T2, T3, T4, T5, T6>::T0(x),
        v2 matches crate::or2::Or::T1(x)
            ==> v2.widened7::<T2, T3, T4, T5, T6>() == Or::<T0, T1, T2, T3, T4, T5, T6>::T1(x),
        v3 matches crate::or3::Or::T0(x)
            ==> v3.widened7::<T3, T4, T5, T6>() == Or::<T0, T1, T2, T3, T4, T5, T6>::T0(x),
        v3 matches crate::or3::Or::T1(x)
            ==> v3.widened7::<T3, T4, T5, T6>() == Or::<T0, T1, T2, T3, T4, T5, T6>::T1(x),
        v3 matches crate::or3::Or::T2(x)
            ==> v3.widened7::<T3, T4, T5, T6>() == Or::<T0, T1, T2, T3, T4, T5, T6>::T2(x),
        v4 matches crate::or4::Or::T0(x)
            ==> v4.widened7::<T4, T5, T6>() == Or::<T0, T1, T2, T3, T4, T5, T6>::T0(x),
        v4 matches crate::or4::Or::T1(x)
            ==> v4.widened7::<T4, T5, T6>() == Or::<T0, T1, T2, T3, T4, T5, T6>::T1(x),
        v4 matches crate::or4::Or::T2(x)
            ==> v4.widened7::<T4, T5, T6>() == Or::<T0, T1, T2, T3, T4, T5, T6>::T2(x),
        v4 matches crate::or4::Or::T3(x)
            ==> v4.widened7::<T4, T5, T6>() == Or::<T0, T1, T2, T3, T4, T5, T6>::T3(x),
        v5 matches crate::or5::Or::T0(x)
            ==> v5.widened7::<T5, T6>() == Or::<T0, T1, T2, T3, T4, T5, T6>::T0(x),
        v5 matches crate::or5::Or::T1(x)
            ==> v5.widened7::<T5, T6>() == Or::<T0, T1, T2, T3, T4, T5, T6>::T1(x),
        v5 matches crate::or5::Or::T2(x)
            ==> v5.widened7::<T5, T6>() == Or::<T0, T1, T2, T3, T4, T5, T6>::T2(x),
        v5 matches crate::or5::Or::T3(x)
            ==> v5.widened7::<T5, T6>() == Or::<T0, T1, T2, T3, T4, T5, T6>::T3(x),
        v5 matches crate::or5::Or::T4(x)
            ==> v5.widened7::<T5, T6>() == Or::<T0, T1, T2, T3, T4, T5, T6>::T4(x),
        v6 matches crate::or6::Or::T0(x)
            ==> v6.widened7::<T6>() == Or::<T0, T1, T2, T3, T4, T5, T6>::T0(x),
        v6 matches crate::or6::Or::T1(x)
            ==> v6.widened7::<T6>() == Or::<T0, T1, T2, T3, T4, T5, T6>::T1(x),
        v6 matches crate::or6::Or::T2(x)
            ==> v6.widened7::<T6>() == Or::<T0, T1, T2, T3, T4, T5, T6>::T2(x),
        v6 matches crate::or6::Or::T3(x)
            ==> v6.widened7::<T6>() == Or::<T0, T1, T2, T3, T4, T5, T6>::T3(x),
        v6 matches crate::or6::Or::T4(x)
            ==> v6.widened7::<T6>() == Or::<T0, T1, T2, T3, T4, T5, T6>::T4(x),
        v6 matches crate::or6::Or::T5(x)
            ==> v6.widened7::<T6>() == Or::<T0, T1, T2, T3, T4, T5, T6>::T5(x),
{
}

/// Narrowing exactly inverts widening on the shared case range, and fails,
/// returning the value unchanged, on any case outside it.
pub proof fn lemma_narrow_inverts_widen7<T0, T1, T2, T3, T4, T5, T6>(
    v1: crate::or1::Or<T0>,
    v2: crate::or2::Or<T0, T1>,
    v3: crate::or3::Or<T0, T1, T2>,
    v4: crate::or4::Or<T0, T1, T2, T3>,
    v5: crate::or5::Or<T0, T1, T2, T3, T4>,
    v6: crate::or6::Or<T0, T1, T2, T3, T4, T5>,
    w: Or<T0, T1, T2, T3, T4, T5, T6>,
)
    ensures
        v1.widened7::<T1, T2, T3, T4, T5, T6>().narrowed1() == Ok::<
            crate::or1::Or<T0>,
            Or<T0, T1, T2, T3, T4, T5, T6>,
        >(v1),
        v2.widened7::<T2, T3, T4, T5, T6>().narrowed2() == Ok::<
            crate::or2::Or<T0, T1>,
            Or<T0, T1, T2, T3, T4, T5, T6>,
        >(v2),
        v3.widened7::<T3, T4, T5, T6>().narrowed3() == Ok::<
            crate::or3::Or<T0, T1, T2>,
            Or<T0, T1, T2, T3, T4, T5, T6>,
        >(v3),
        v4.widened7::<T4, T5, T6>().narrowed4() == Ok::<
            crate::or4::Or<T0, T1, T2, T3>,
            Or<T0, T1, T2, T3, T4, T5, T6>,
        >(v4),
        v5.widened7::<T5, T6>().narrowed5() == Ok::<
            crate::or5::Or<T0, T1, T2, T3, T4>,
            Or<T0, T1, T2, T3, T4, T5, T6>,
        >(v5),
        v6.widened7::<T6>().narrowed6() == Ok::<
            crate::or6::Or<T0, T1, T2, T3, T4, T5>,
            Or<T0, T1, T2, T3, T4, T5, T6>,
        >(v6),
        w.tag() < 1 ==> (w.narrowed1() matches Ok(n) && n.widened7::<T1, T2, T3, T4, T5, T6>() == w),
        w.tag() >= 1 ==> w.narrowed1() == Err::<crate::or1::Or<T0>, Or<T0, T1, T2, T3, T4, T5, T6>>(w),
        w.tag() < 2 ==> (w.narrowed2() matches Ok(n) && n.widened7::<T2, T3, T4, T5, T6>() == w),
        w.tag() >= 2 ==> w.narrowed2() == Err::<crate::or2::Or<T0, T1>, Or<T0, T1, T2, T3, T4, T5, T6>>(w),
        w.tag() < 3 ==> (w.narrowed3() matches Ok(n) && n.widened7::<T3, T4, T5, T6>() == w),
        w.tag() >= 3 ==> w.narrowed3() == Err::<crate::or3::Or<T0, T1, T2>, Or<T0, T1, T2, T3, T4, T5, T6>>(w),
        w.tag() < 4 ==> (w.narrowed4() matches Ok(n) && n.widened7::<T4, T5, T6>() == w),
        w.tag() >= 4 ==> w.narrowed4() == Err::<crate::or4::Or<T0, T1, T2, T3>, Or<T0, T1, T2, T3, T4, T5, T6>>(w),
        w.tag() < 5 ==> (w.narrowed5() matches Ok(n) && n.widened7::<T5, T6>() == w),
        w.tag() >= 5 ==> w.narrowed5() == Err::<crate::or5::Or<T0, T1, T2, T3, T4>, Or<T0, T1, T2, T3, T4, T5, T6>>(w),
        w.tag() < 6 ==> (w.narrowed6() matches Ok(n) && n.widened7::<T6>() == w),
        w.tag() >= 6 ==> w.narrowed6() == Err::<crate::or6::Or<T0, T1, T2, T3, T4, T5>, Or<T0, T1, T2, T3, T4, T5, T6>>(w),
{
}

} // verus!
