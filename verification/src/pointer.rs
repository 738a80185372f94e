//! The pointer itself: its two variants, access to the data, and taking the data out.

use crate::borrowable::Borrowable;
use crate::borrowable::BorrowableMut;
use std::borrow::Borrow;
use std::borrow::BorrowMut;
use std::borrow::Cow;
use std::borrow::ToOwned;
use std::ops::Deref;
use std::ops::DerefMut;
use vstd::prelude::*;
use vstd::std_specs::convert::IntoSpecImpl;

verus! {

/// A clone-on-consume smart pointer.
///
/// It holds either a mutable borrow of data or an owned value of the same data, and it makes
/// an owned copy of borrowed data at one point only: when the owned value is taken out.
pub enum MuCow<'a, B: ?Sized + ToOwned + 'a> {
    /// Borrowed data.
    Borrowed(&'a mut B),
    /// Owned data.
    Owned(<B as ToOwned>::Owned),
}

/// A pointer shows the view of its data, whichever form it holds them in.
impl<'a, B: ?Sized + Borrowable> View for MuCow<'a, B> {
    type V = B::V;

    open spec fn view(&self) -> B::V {
        match self {
            MuCow::Borrowed(b) => b@,
            MuCow::Owned(o) => B::owned_view(o),
        }
    }
}

impl<'a, B: ?Sized + Borrowable> MuCow<'a, B> {
    /// Whether `x` is data that the pointer gives access to: the borrowed data itself, or
    /// what lending the owned value gives, which shows the view of the owned value.
    pub open spec fn lends(&self, x: &B) -> bool {
        match self {
            MuCow::Borrowed(b) => x == &**b,
            MuCow::Owned(o) => call_ensures(B::lend, (o,), x) && x@ == B::owned_view(o),
        }
    }

    /// The borrowed data, or some data with the view of the owned value: what comparisons of
    /// pointers are stated over.
    pub open spec fn lent(&self) -> &B {
        match self {
            MuCow::Borrowed(b) => &**b,
            MuCow::Owned(o) => choose|x: &B| x@ == B::owned_view(o),
        }
    }

    /// How a pointer changes while its data is lent out for writing, where `lent` is the
    /// data as handed out and `returned` is what the data is when the loan ends.
    ///
    /// The variant stays as it was. Borrowed data is handed out itself, and the borrow keeps
    /// what was written. An owned value shows the view of `lent` before and the view of
    /// `returned` after.
    pub open spec fn written_through(before: &Self, after: &Self, lent: &B, returned: &B) -> bool {
        match *before {
            MuCow::Borrowed(b) => {
                &&& lent == &*b
                &&& *after matches MuCow::Borrowed(b2)
                &&& &*b2 == returned
            },
            MuCow::Owned(o) => {
                &&& lent@ == B::owned_view(&o)
                &&& *after matches MuCow::Owned(o2)
                &&& B::owned_view(&o2) == returned@
            },
        }
    }

    /// Extracts the owned data.
    ///
    /// Clones the data if it is not already owned. Borrowed data is left as it was.
    pub fn into_owned(self) -> (owned: <B as ToOwned>::Owned)
        ensures
            match self {
                MuCow::Borrowed(b) => {
                    &&& call_ensures(B::make_owned, (&*b,), owned)
                    &&& B::clones_faithfully() ==> B::owned_view(&owned) == b@
                    &&& &*final(b) == &*b
                },
                MuCow::Owned(o) => owned == o,
            },
    {
        match self {
            MuCow::Borrowed(borrowed) => borrowed.make_owned(),
            MuCow::Owned(owned) => owned,
        }
    }
}

impl<'a, B: ?Sized + Borrowable> Deref for MuCow<'a, B> {
    type Target = B;

    /// Gives read access to the data: the borrowed data itself, or the owned value lent out.
    fn deref(&self) -> (r: &B)
        ensures
            self.lends(r),
            r@ == self@,
    {
        match self {
            MuCow::Borrowed(borrowed) => borrowed,
            MuCow::Owned(owned) => B::lend(owned),
        }
    }
}

impl<'a, B: ?Sized + BorrowableMut> DerefMut for MuCow<'a, B> {
    /// Gives write access to the data in place: to the borrowed data itself, or to the owned
    /// value. A borrowing pointer goes on borrowing.
    fn deref_mut(&mut self) -> (r: &mut B)
        ensures
            Self::written_through(old(self), final(self), &*r, &*final(r)),
            *old(self) matches MuCow::Borrowed(b) ==> *final(self) matches MuCow::Borrowed(b2)
                && &*final(b2) == &*final(b),
            r@ == old(self)@,
            final(r)@ == final(self)@,
    {
        match self {
            MuCow::Borrowed(borrowed) => borrowed,
            MuCow::Owned(owned) => B::lend_mut(owned),
        }
    }
}

impl<'a, B: ?Sized + Borrowable> Clone for MuCow<'a, B> {
    /// Duplicates the pointer. The duplicate owns a copy of the data, also where the pointer
    /// itself only borrows them: two pointers cannot share one mutable borrow.
    fn clone(&self) -> (r: Self)
        ensures
            r is Owned,
            r matches MuCow::Owned(o) && exists|x: &B| #[trigger]
                self.lends(x) && call_ensures(B::make_owned, (x,), o),
            B::clones_faithfully() ==> r@ == self@,
    {
        MuCow::Owned(self.deref().make_owned())
    }
}

impl<'a, B: ?Sized + ToOwned> Default for MuCow<'a, B> where <B as ToOwned>::Owned: Default {
    /// A pointer that owns the default value of the owned form.
    fn default() -> (r: Self)
        ensures
            r matches MuCow::Owned(o) && call_ensures(
                <<B as ToOwned>::Owned as Default>::default,
                (),
                o,
            ),
    {
        MuCow::Owned(<<B as ToOwned>::Owned as Default>::default())
    }
}

impl<'a, B: ?Sized + ToOwned> Into<Cow<'a, B>> for MuCow<'a, B> {
    /// Turns the pointer into a clone-on-write pointer of the same variant. Borrowed data
    /// can no longer be written to, and so stays as it is.
    fn into(self) -> (r: Cow<'a, B>)
        ensures
            match self {
                MuCow::Borrowed(b) => {
                    &&& r matches Cow::Borrowed(c)
                    &&& c == &*b
                    &&& &*final(b) == &*b
                },
                MuCow::Owned(o) => r matches Cow::Owned(c) && c == o,
            },
    {
        match self {
            MuCow::Borrowed(borrowed) => Cow::Borrowed(borrowed),
            MuCow::Owned(owned) => Cow::Owned(owned),
        }
    }
}

impl<'a, B: ?Sized + ToOwned> IntoSpecImpl<Cow<'a, B>> for MuCow<'a, B> {
    open spec fn obeys_into_spec() -> bool {
        true
    }

    open spec fn into_spec(self) -> Cow<'a, B> {
        match self {
            MuCow::Borrowed(b) => Cow::Borrowed(&*b),
            MuCow::Owned(o) => Cow::Owned(o),
        }
    }
}

impl<'a, B: ?Sized + Borrowable> Borrow<B> for MuCow<'a, B> {
    /// The same access as `deref` gives.
    fn borrow(&self) -> (r: &B)
        ensures
            self.lends(r),
            r@ == self@,
    {
        self.deref()
    }
}

impl<'a, B: ?Sized + BorrowableMut> BorrowMut<B> for MuCow<'a, B> {
    /// The same access as `deref_mut` gives.
    fn borrow_mut(&mut self) -> (r: &mut B)
        ensures
            Self::written_through(old(self), final(self), &*r, &*final(r)),
            *old(self) matches MuCow::Borrowed(b) ==> *final(self) matches MuCow::Borrowed(b2)
                && &*final(b2) == &*final(b),
            B::view(&*r) == old(self)@,
            B::view(&*final(r)) == final(self)@,
    {
        self.deref_mut()
    }
}

impl<'a, B: ?Sized + Borrowable> AsRef<B> for MuCow<'a, B> {
    /// The same access as `deref` gives.
    fn as_ref(&self) -> (r: &B)
        ensures
            self.lends(r),
            r@ == self@,
    {
        self.deref()
    }
}

/// Taking the owned data out of a duplicate gives what taking them out of the pointer itself
/// gives, up to the view, for a pointer of either variant. This holds where owned copies of
/// `B` keep the view.
pub proof fn lemma_duplicate_round_trip<'a, B: ?Sized + Borrowable>(
    x: MuCow<'a, B>,
    duplicate: MuCow<'a, B>,
    from_duplicate: <B as ToOwned>::Owned,
    from_x: <B as ToOwned>::Owned,
)
    requires
        B::clones_faithfully(),
        call_ensures(<MuCow<'a, B> as Clone>::clone, (&x,), duplicate),
        call_ensures(MuCow::<'a, B>::into_owned, (duplicate,), from_duplicate),
        call_ensures(MuCow::<'a, B>::into_owned, (x,), from_x),
    ensures
        B::owned_view(&from_duplicate) == B::owned_view(&from_x),
{
}

} // verus!
