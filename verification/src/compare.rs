//! Equality and ordering of pointers, which go by the data they give access to.

use crate::borrowable::Borrowable;
use crate::pointer::MuCow;
use std::cmp::Ordering;
use std::ops::Deref;
use vstd::prelude::*;
use vstd::std_specs::cmp::OrdSpec;
use vstd::std_specs::cmp::PartialEqSpec;
use vstd::std_specs::cmp::PartialEqSpecImpl;
use vstd::std_specs::cmp::PartialOrdSpec;
use vstd::std_specs::cmp::PartialOrdSpecImpl;

verus! {

/// Whether `==` between `B` and `C` answers as `eq_spec` says and is settled by the two views:
/// data with equal views get equal answers.
pub open spec fn eq_goes_by_view<B: ?Sized + PartialEq<C> + View, C: ?Sized + View>() -> bool {
    &&& B::obeys_eq_spec()
    &&& forall|x: &B, y: &C, x2: &B, y2: &C|
        x@ == x2@ && y@ == y2@ ==> #[trigger] x.eq_spec(y) == #[trigger] x2.eq_spec(y2)
}

impl<'a, 'b, B: ?Sized, C: ?Sized> PartialEq<MuCow<'b, C>> for MuCow<'a, B> where
    B: PartialEq<C> + Borrowable,
    C: Borrowable,
 {
    /// Compares the data of the two pointers by `==` of `B`; the variants play no part.
    fn eq(&self, other: &MuCow<'b, C>) -> (r: bool)
        ensures
            exists|x: &B, y: &C|
                #![trigger self.lends(x), other.lends(y)]
                self.lends(x) && other.lends(y) && call_ensures(B::eq, (x, y), r),
    {
        self.deref().eq(other.deref())
    }
}

/// Where `==` between `B` and `C` is settled by the views, `==` between pointers is `==` on
/// any data that the two give access to.
impl<'a, 'b, B: ?Sized, C: ?Sized> PartialEqSpecImpl<MuCow<'b, C>> for MuCow<'a, B> where
    B: PartialEq<C> + Borrowable,
    C: Borrowable,
 {
    open spec fn obeys_eq_spec() -> bool {
        eq_goes_by_view::<B, C>()
    }

    open spec fn eq_spec(&self, other: &MuCow<'b, C>) -> bool {
        self.lent().eq_spec(other.lent())
    }
}

impl<'a, B: ?Sized + Eq + Borrowable> Eq for MuCow<'a, B> {
}

/// `==` on pointers is reflexive and symmetric, and two pointers whose data have equal views are
/// equal whatever their variants: all this as long as `==` on `B` is itself reflexive and
/// symmetric and is settled by the views.
pub proof fn lemma_eq_ignores_variant<'a, 'b, B: ?Sized + PartialEq + Borrowable>(
    p: MuCow<'a, B>,
    q: MuCow<'b, B>,
    p_p: bool,
    p_q: bool,
    q_p: bool,
)
    requires
        eq_goes_by_view::<B, B>(),
        forall|x: &B| #[trigger] x.eq_spec(x),
        forall|x: &B, y: &B| #[trigger] x.eq_spec(y) == y.eq_spec(x),
        call_ensures(PartialEq::eq, (&p, &p), p_p),
        call_ensures(PartialEq::eq, (&p, &q), p_q),
        call_ensures(PartialEq::eq, (&q, &p), q_p),
    ensures
        p_p,
        p_q == q_p,
        p@ == q@ ==> p_q,
{
}

/// Whether `partial_cmp` on `B` answers as `partial_cmp_spec` says and is settled by the two
/// views.
pub open spec fn partial_cmp_goes_by_view<B: ?Sized + PartialOrd + View>() -> bool {
    &&& B::obeys_partial_cmp_spec()
    &&& forall|x: &B, y: &B, x2: &B, y2: &B|
        x@ == x2@ && y@ == y2@ ==> #[trigger] x.partial_cmp_spec(y) == #[trigger] x2.partial_cmp_spec(
            y2,
        )
}

/// Whether `cmp` on `B` answers as `cmp_spec` says and is settled by the two views.
pub open spec fn cmp_goes_by_view<B: ?Sized + Ord + View>() -> bool {
    &&& B::obeys_cmp_spec()
    &&& forall|x: &B, y: &B, x2: &B, y2: &B|
        x@ == x2@ && y@ == y2@ ==> #[trigger] x.cmp_spec(y) == #[trigger] x2.cmp_spec(y2)
}

impl<'a, B: ?Sized> PartialOrd for MuCow<'a, B> where B: PartialOrd + Borrowable {
    /// Orders the data of the two pointers by `partial_cmp` of `B`; the variants play no
    /// part.
    fn partial_cmp(&self, other: &MuCow<'a, B>) -> (r: Option<Ordering>)
        ensures
            exists|x: &B, y: &B|
                #![trigger self.lends(x), other.lends(y)]
                self.lends(x) && other.lends(y) && call_ensures(B::partial_cmp, (x, y), r),
    {
        self.deref().partial_cmp(other.deref())
    }
}

/// Where `partial_cmp` on `B` is settled by the views, `partial_cmp` on pointers is
/// `partial_cmp` on any data that the two give access to.
impl<'a, B: ?Sized> PartialOrdSpecImpl for MuCow<'a, B> where B: PartialOrd + Borrowable {
    open spec fn obeys_partial_cmp_spec() -> bool {
        partial_cmp_goes_by_view::<B>()
    }

    open spec fn partial_cmp_spec(&self, other: &MuCow<'a, B>) -> Option<Ordering> {
        self.lent().partial_cmp_spec(other.lent())
    }
}

impl<'a, B: ?Sized + Borrowable> MuCow<'a, B> {
    /// Orders the data of the two pointers by `cmp` of `B`; the variants play no part.
    pub fn cmp(&self, other: &MuCow<'a, B>) -> (r: Ordering) where B: Ord
        ensures
            exists|x: &B, y: &B|
                #![trigger self.lends(x), other.lends(y)]
                self.lends(x) && other.lends(y) && call_ensures(B::cmp, (x, y), r),
            cmp_goes_by_view::<B>() ==> r == self.lent().cmp_spec(other.lent()),
    {
        self.deref().cmp(other.deref())
    }
}

} // verus!
