//! The one-case sum type.

use vstd::prelude::*;
use vstd::multiset::Multiset;
use vstd::std_specs::convert::IntoSpec;
use crate::{At, Is, Count};

verus! {

broadcast use
    vstd::seq_lib::group_to_multiset_ensures,
    vstd::multiset::group_multiset_axioms,
    vstd::multiset::group_multiset_properties;

/// A sum with exactly one case, at position 0.
#[derive(Clone, Copy, Debug, PartialEq, Eq, PartialOrd, Ord, Hash)]
pub enum Or<T0> {
    T0(T0),
}

impl<T0> Or<T0> {
    /// The index of the active case.
    pub open spec fn tag(self) -> nat {
        match self {
            Or::T0(_) => 0,
        }
    }

    /// The collection that [`Or::from_tuple`] returns: one sum per position,
    /// each active at the case matching its position.
    pub open spec fn tuple_form(t: (T0,)) -> Seq<Or<T0>> {
        seq![Or::T0(t.0)]
    }

    /// The tuple that a position-tagged collection reconstructs to: defined
    /// exactly when element `i` is active at case `i` for every position.
    pub open spec fn reconstruct(s: Seq<Or<T0>>) -> Option<(T0,)> {
        if s.len() == 1 {
            match s[0] {
                Or::T0(a) => Some((a,)),
            }
        } else {
            None
        }
    }

    /// Whether the collection is ordered by ascending case index.
    pub open spec fn sorted(s: Seq<Or<T0>>) -> bool {
        forall|i: int, j: int| 0 <= i <= j < s.len() ==> s[i].tag() <= s[j].tag()
    }

    /// The index of the active case.
    #[inline]
    pub fn case(&self) -> (r: usize)
        ensures
            r == self.tag(),
    {
        match self {
            Or::T0(_) => 0,
        }
    }

    /// Returns the contained value if case 0 is active.
    #[inline]
    pub fn t0(self) -> (r: Option<T0>)
        ensures
            self matches Or::T0(v) ==> r == Some(v),
    {
        match self {
            Or::T0(item) => Some(item),
        }
    }

    /// True exactly when case 0 is active.
    #[inline]
    pub fn is_t0(&self) -> (r: bool)
        ensures
            r == (self is T0),
    {
        match self {
            Or::T0(_) => true,
        }
    }

    /// Transforms the value at case 0; any other case passes through unchanged.
    #[inline]
    pub fn map_t0<U, F: FnOnce(T0) -> U>(self, map: F) -> (r: Or<U>)
        requires
            self matches Or::T0(v) ==> call_requires(map, (v,)),
        ensures
            self matches Or::T0(v) ==> (r matches Or::T0(u) && call_ensures(map, (v,), u)),
    {
        match self {
            Or::T0(item) => Or::T0(map(item)),
        }
    }

    /// Converts the contained value, whichever case is active, into `T`.
    #[inline]
    pub fn into<T>(self) -> (r: T) where T0: Into<T>
        ensures
            self matches Or::T0(v) ==> (<T0 as IntoSpec<T>>::obeys_into_spec()
                ==> r == <T0 as IntoSpec<T>>::into_spec(v)),
    {
        match self {
            Or::T0(item) => item.into(),
        }
    }

    /// Projects a borrow of the sum into a sum of borrows, at the same case.
    #[inline]
    pub fn as_ref(&self) -> (r: Or<&T0>)
        ensures
            self matches Or::T0(v) ==> (r matches Or::T0(p) && *p == v),
    {
        match self {
            Or::T0(item) => Or::T0(item),
        }
    }

    /// Projects each tuple element into its own single-case sum, in position
    /// order.
    pub fn from_tuple(t: (T0,)) -> (r: Vec<Or<T0>>)
        ensures
            r@ == Self::tuple_form(t),
    {
        let mut r: Vec<Or<T0>> = Vec::new();
        r.push(Or::T0(t.0));
        proof {
            assert(r@ =~= Self::tuple_form(t));
        }
        r
    }

    /// Rebuilds the tuple from a position-tagged collection; succeeds exactly
    /// when element `i` is active at case `i` for every position, and
    /// otherwise returns the collection unchanged.
    pub fn try_into_tuple(items: Vec<Or<T0>>) -> (r: Result<
        (T0,),
        Vec<Or<T0>>,
    >)
        ensures
            r matches Ok(t) ==> Self::reconstruct(items@) == Some(t),
            r matches Err(e) ==> e@ == items@ && Self::reconstruct(items@) is None,
    {
        if items.len() == 1 && items[0].is_t0() {
            let mut items = items;
            let a = match items.pop() {
                Some(Or::T0(a)) => a,
                _ => vstd::pervasive::unreached(),
            };
            Ok((a,))
        } else {
            Err(items)
        }
    }

    /// Reorders the collection by ascending case index; the contents are kept
    /// exactly, as a multiset.
    pub fn sort(items: &mut Vec<Or<T0>>)
        ensures
            final(items)@.len() == old(items)@.len(),
            final(items)@.to_multiset() == old(items)@.to_multiset(),
            Self::sorted(final(items)@),
    {
        let n = items.len();
        let mut out: Vec<Or<T0>> = Vec::new();
        while items.len() > 0
            invariant
                out@.len() + items@.len() == n,
                out@.to_multiset().add(items@.to_multiset()) =~= old(items)@.to_multiset(),
                Self::sorted(out@),
                forall|i: int, j: int| 0 <= i < out@.len() && 0 <= j < items@.len()
                    ==> out@[i].tag() <= items@[j].tag(),
            decreases items@.len(),
        {
            let mut best: usize = 0;
            let mut k: usize = 1;
            while k < items.len()
                invariant
                    0 < items@.len(),
                    0 <= best < items@.len(),
                    k <= items@.len(),
                    forall|m: int| 0 <= m < k ==> items@[best as int].tag() <= items@[m].tag(),
                decreases items@.len() - k,
            {
                if items[k].case() < items[best].case() {
                    best = k;
                }
                k = k + 1;
            }
            let ghost pre = items@;
            let ghost pre_out = out@;
            let x = items.remove(best);
            out.push(x);
            proof {
                assert(pre.contains(x));
                assert(pre.to_multiset().count(x) > 0);
                assert(pre.remove(best as int).to_multiset()
                    =~= pre.to_multiset().remove(x));
                assert(pre_out.push(x).to_multiset() =~= pre_out.to_multiset().insert(x));
                assert(out@.to_multiset().add(items@.to_multiset())
                    =~= pre_out.to_multiset().add(pre.to_multiset()));
                assert forall|j: int| 0 <= j < items@.len()
                    implies x.tag() <= items@[j].tag() by {
                    if j < best {
                        assert(items@[j] == pre[j]);
                    } else {
                        assert(items@[j] == pre[j + 1]);
                    }
                }
            }
        }
        proof {
            assert(items@.to_multiset() =~= Multiset::empty());
            assert(out@.to_multiset().add(items@.to_multiset()) =~= out@.to_multiset());
        }
        *items = out;
    }

    /// Converts to the two-case sum with the same prefix of positions,
    /// keeping the case index and the contained value.
    #[inline]
    pub fn widen2<T1>(self) -> (r: crate::or2::Or<T0, T1>)
        ensures
            r == self.widened2::<T1>(),
    {
        match self {
            Or::T0(item) => crate::or2::Or::T0(item),
        }
    }

    /// What [`Or::widen2`] returns.
    pub open spec fn widened2<T1>(self) -> crate::or2::Or<T0, T1> {
        match self {
            Or::T0(item) => crate::or2::Or::T0(item),
        }
    }

    /// Converts to the three-case sum with the same prefix of positions,
    /// keeping the case index and the contained value.
    #[inline]
    pub fn widen3<T1, T2>(self) -> (r: crate::or3::Or<T0, T1, T2>)
        ensures
            r == self.widened3::<T1, T2>(),
    {
        match self {
            Or::T0(item) => crate::or3::Or::T0(item),
        }
    }

    /// What [`Or::widen3`] returns.
    pub open spec fn widened3<T1, T2>(self) -> crate::or3::Or<T0, T1, T2> {
        match self {
            Or::T0(item) => crate::or3::Or::T0(item),
        }
    }

    /// Converts to the four-case sum with the same prefix of positions,
    /// keeping the case index and the contained value.
    #[inline]
    pub fn widen4<T1, T2, T3>(self) -> (r: crate::or4::Or<T0, T1, T2, T3>)
        ensures
            r == self.widened4::<T1, T2, T3>(),
    {
        match self {
            Or::T0(item) => crate::or4::Or::T0(item),
        }
    }

    /// What [`Or::widen4`] returns.
    pub open spec fn widened4<T1, T2, T3>(self) -> crate::or4::Or<T0, T1, T2, T3> {
        match self {
            Or::T0(item) => crate::or4::Or::T0(item),
        }
    }

    /// Converts to the five-case sum with the same prefix of positions,
    /// keeping the case index and the contained value.
    #[inline]
    pub fn widen5<T1, T2, T3, T4>(self) -> (r: crate::or5::Or<T0, T1, T2, T3, T4>)
        ensures
            r == self.widened5::<T1, T2, T3, T4>(),
    {
        match self {
            Or::T0(item) => crate::or5::Or::T0(item),
        }
    }

    /// What [`Or::widen5`] returns.
    pub open spec fn widened5<T1, T2, T3, T4>(self) -> crate::or5::Or<T0, T1, T2, T3, T4> {
        match self {
            Or::T0(item) => crate::or5::Or::T0(item),
        }
    }

    /// Converts to the six-case sum with the same prefix of positions,
    /// keeping the case index and the contained value.
    #[inline]
    pub fn widen6<T1, T2, T3, T4, T5>(self) -> (r: crate::or6::Or<T0, T1, T2, T3, T4, T5>)
        ensures
            r == self.widened6::<T1, T2, T3, T4, T5>(),
    {
        match self {
            Or::T0(item) => crate::or6::Or::T0(item),
        }
    }

    /// What [`Or::widen6`] returns.
    pub open spec fn widened6<T1, T2, T3, T4, T5>(self) -> crate::or6::Or<T0, T1, T2, T3, T4, T5> {
        match self {
            Or::T0(item) => crate::or6::Or::T0(item),
        }
    }

    /// Converts to the seven-case sum with the same prefix of positions,
    /// keeping the case index and the contained value.
    #[inline]
    pub fn widen7<T1, T2, T3, T4, T5, T6>(self) -> (r: crate::or7::Or<T0, T1, T2, T3, T4, T5, T6>)
        ensures
            r == self.widened7::<T1, T2, T3, T4, T5, T6>(),
    {
        match self {
            Or::T0(item) => crate::or7::Or::T0(item),
        }
    }

    /// What [`Or::widen7`] returns.
    pub open spec fn widened7<T1, T2, T3, T4, T5, T6>(self) -> crate::or7::Or<T0, T1, T2, T3, T4, T5, T6> {
        match self {
            Or::T0(item) => crate::or7::Or::T0(item),
        }
    }

    /// Converts to the eight-case sum with the same prefix of positions,
    /// keeping the case index and the contained value.
    #[inline]
    pub fn widen8<T1, T2, T3, T4, T5, T6, T7>(self) -> (r: crate::or8::Or<T0, T1, T2, T3, T4, T5, T6, T7>)
        ensures
            r == self.widened8::<T1, T2, T3, T4, T5, T6, T7>(),
    {
        match self {
            Or::T0(item) => crate::or8::Or::T0(item),
        }
    }

    /// What [`Or::widen8`] returns.
    pub open spec fn widened8<T1, T2, T3, T4, T5, T6, T7>(self) -> crate::or8::Or<T0, T1, T2, T3, T4, T5, T6, T7> {
        match self {
            Or::T0(item) => crate::or8::Or::T0(item),
        }
    }
}

impl<'a, T0> Or<&'a T0> {
    /// Clones the borrowed contents into an owned sum at the same case.
    #[inline]
    pub fn cloned(self) -> (r: Or<T0>) where T0: Clone
        ensures
            self matches Or::T0(p) ==> (r matches Or::T0(v) && cloned(*p, v)),
    {
        match self {
            Or::T0(item) => Or::T0(item.clone()),
        }
    }

    /// Copies the borrowed contents into an owned sum at the same case.
    #[inline]
    pub fn copied(self) -> (r: Or<T0>) where T0: Copy
        ensures
            self matches Or::T0(p) ==> r == Or::<T0>::T0(*p),
    {
        match self {
            Or::T0(item) => Or::T0(*item),
        }
    }
}

impl<T> Or<T> {
    /// Extracts the contained value without a case test; every case of this
    /// sum holds the same type, so no case can fail to supply one.
    #[inline]
    pub fn into_inner(self) -> (r: T)
        ensures
            self matches Or::T0(v) ==> r == v,
    {
        match self {
            Or::T0(item) => item,
        }
    }

    /// Transforms the contained value while preserving the active case.
    #[inline]
    pub fn map<U, F: FnOnce(T) -> U>(self, map: F) -> (r: Or<U>)
        requires
            self matches Or::T0(v) ==> call_requires(map, (v,)),
        ensures
            r.tag() == self.tag(),
            self matches Or::T0(v) ==> (r matches Or::T0(u) && call_ensures(map, (v,), u)),
    {
        match self {
            Or::T0(item) => Or::T0(map(item)),
        }
    }

    /// Like [`Or::map`], threading auxiliary state into the transform.
    #[inline]
    pub fn map_with<S, U, F: FnOnce(S, T) -> U>(self, state: S, map: F) -> (r: Or<U>)
        requires
            self matches Or::T0(v) ==> call_requires(map, (state, v)),
        ensures
            r.tag() == self.tag(),
            self matches Or::T0(v) ==> (r matches Or::T0(u) && call_ensures(map, (state, v), u)),
    {
        match self {
            Or::T0(item) => Or::T0(map(state, item)),
        }
    }
}

impl<T0> Is for Or<T0> {
    #[inline]
    fn is(&self, index: usize) -> (r: bool)
        ensures
            r == (index == self.tag()),
    {
        match (index, self) {
            (0, Or::T0(_)) => true,
            _ => false,
        }
    }
}

impl<T0> Count for Or<T0> {
    const COUNT: usize = 1;
}

impl<T0> Count for (T0,) {
    const COUNT: usize = 1;
}

impl<T0> At<0> for Or<T0> {
    type Item = Option<T0>;

    open spec fn at_spec(self) -> Option<T0> {
        match self {
            Or::T0(item) => Some(item),
        }
    }

    #[inline]
    fn at(self) -> Option<T0> {
        match self {
            Or::T0(item) => Some(item),
        }
    }
}

impl<'a, T0> At<0> for &'a Or<T0> {
    type Item = Option<&'a T0>;

    open spec fn at_spec(self) -> Option<&'a T0> {
        match self {
            Or::T0(item) => Some(item),
        }
    }

    #[inline]
    fn at(self) -> Option<&'a T0> {
        match self {
            Or::T0(item) => Some(item),
        }
    }
}

impl<T0> At<0> for (T0,) {
    type Item = T0;

    open spec fn at_spec(self) -> T0 {
        self.0
    }

    #[inline]
    fn at(self) -> T0 {
        self.0
    }
}

impl<'a, T0> At<0> for &'a (T0,) {
    type Item = &'a T0;

    open spec fn at_spec(self) -> &'a T0 {
        &self.0
    }

    #[inline]
    fn at(self) -> &'a T0 {
        &self.0
    }
}

/// Every value of the one-case sum is active at case 0, and no other case
/// exists: the case index is always in range and determines the variant.
pub proof fn lemma_case_exclusive<T0>(v: Or<T0>)
    ensures
        v.tag() < 1,
        v is T0 <==> v.tag() == 0,
{
}

/// Projecting a tuple and rebuilding it recovers the tuple exactly.
pub proof fn lemma_round_trip<T0>(t: (T0,))
    ensures
        Or::<T0>::reconstruct(Or::<T0>::tuple_form(t)) == Some(t),
{
}

/// A sorted collection with exactly the contents of a projected tuple is that
/// projection itself, so rebuilding it recovers the tuple.
pub proof fn lemma_sorted_reconstruct<T0>(t: (T0,), s: Seq<Or<T0>>)
    requires
        s.to_multiset() == Or::<T0>::tuple_form(t).to_multiset(),
        Or::<T0>::sorted(s),
    ensures
        s == Or::<T0>::tuple_form(t),
        Or::<T0>::reconstruct(s) == Some(t),
{
    let f = Or::<T0>::tuple_form(t);
    assert(s.len() == s.to_multiset().len());
    assert(f.len() == f.to_multiset().len());
    assert(f.contains(f[0]));
    assert(f.to_multiset().count(f[0]) > 0);
    assert(s.contains(f[0]));
    let i0 = choose|i: int| 0 <= i < s.len() && s[i] == f[0];
    assert(s[i0] == f[0]);
    assert(s =~= f);
}

} // verus!
