//! The data a pointer can stand for: a borrowed form, and the owned form that copies of it
//! take.

use std::borrow::ToOwned;
use vstd::prelude::*;

verus! {

/// Data that can be borrowed, together with the owned form that a copy of them takes.
///
/// The two forms are measured against each other by their views: the borrowed form shows
/// `self@`, an owned value shows `owned_view`.
pub trait Borrowable: View + ToOwned {
    /// Whether an owned copy always shows the view of the data it was made from.
    spec fn clones_faithfully() -> bool;

    /// The view that an owned value shows.
    spec fn owned_view(owned: &<Self as ToOwned>::Owned) -> Self::V;

    /// Makes an owned copy of borrowed data.
    fn make_owned(&self) -> (owned: <Self as ToOwned>::Owned)
        ensures
            Self::clones_faithfully() ==> Self::owned_view(&owned) == self@,
    ;

    /// Borrows the data that an owned value holds.
    fn lend(owned: &<Self as ToOwned>::Owned) -> (lent: &Self)
        ensures
            lent@ == Self::owned_view(owned),
    ;
}

/// Borrowable data whose owned form can be changed in place through a borrow.
pub trait BorrowableMut: Borrowable {
    /// Borrows the data that an owned value holds, for writing. The owned value ends up
    /// holding what the borrow holds when it ends.
    fn lend_mut(owned: &mut <Self as ToOwned>::Owned) -> (lent: &mut Self)
        ensures
            lent@ == Self::owned_view(old(owned)),
            final(lent)@ == Self::owned_view(final(owned)),
    ;
}

/// A slice is owned as a vector of clones of its items, in order.
impl<T: Clone> Borrowable for [T] {
    /// The copy is faithful where a clone of an item equals the item.
    open spec fn clones_faithfully() -> bool {
        forall|x: T, y: T| call_ensures(T::clone, (&x,), y) ==> y == x
    }

    open spec fn owned_view(owned: &Vec<T>) -> Seq<T> {
        owned@
    }

    fn make_owned(&self) -> (owned: Vec<T>)
        ensures
            owned@.len() == self@.len(),
            forall|i: int| 0 <= i < self@.len() ==> cloned::<T>(self@[i], #[trigger] owned@[i]),
    {
        let mut owned: Vec<T> = Vec::with_capacity(self.len());
        let mut i: usize = 0;
        while i < self.len()
            invariant
                i <= self@.len(),
                owned@.len() == i,
                forall|j: int| 0 <= j < i ==> cloned::<T>(self@[j], #[trigger] owned@[j]),
            decreases self@.len() - i,
        {
            owned.push(self[i].clone());
            i += 1;
        }
        assert(Self::clones_faithfully() ==> owned@ =~= self@);
        owned
    }

    fn lend(owned: &Vec<T>) -> (lent: &[T]) {
        owned.as_slice()
    }
}

impl<T: Clone> BorrowableMut for [T] {
    fn lend_mut(owned: &mut Vec<T>) -> (lent: &mut [T]) {
        owned.as_mut_slice()
    }
}

/// A string slice is owned as a `String` of the same characters.
impl Borrowable for str {
    open spec fn clones_faithfully() -> bool {
        true
    }

    open spec fn owned_view(owned: &String) -> Seq<char> {
        owned@
    }

    fn make_owned(&self) -> (owned: String) {
        self.to_owned()
    }

    fn lend(owned: &String) -> (lent: &str) {
        owned.as_str()
    }
}

/// `String::as_mut_str` lends out the text of a string for writing: the slice shows the
/// characters that the string holds, and the string ends up holding the characters that the
/// slice holds when the borrow ends.
pub assume_specification[ String::as_mut_str ](s: &mut String) -> (r: &mut str)
    ensures
        r@ == old(s)@,
        final(r)@ == final(s)@,
;

impl BorrowableMut for str {
    fn lend_mut(owned: &mut String) -> (lent: &mut str) {
        owned.as_mut_str()
    }
}

/// Data that can be cloned are their own owned form.
impl<T: Clone + View> Borrowable for T {
    /// The copy is faithful where a clone shows the view of what it was cloned from.
    open spec fn clones_faithfully() -> bool {
        forall|x: T, y: T| call_ensures(T::clone, (&x,), y) ==> y@ == x@
    }

    open spec fn owned_view(owned: &T) -> T::V {
        owned@
    }

    fn make_owned(&self) -> (owned: T)
        ensures
            call_ensures(T::clone, (self,), owned),
    {
        self.clone()
    }

    fn lend(owned: &T) -> (lent: &T)
        ensures
            lent == owned,
    {
        owned
    }
}

impl<T: Clone + View> BorrowableMut for T {
    fn lend_mut(owned: &mut T) -> (lent: &mut T)
        ensures
            *lent == *old(owned),
            *final(lent) == *final(owned),
    {
        owned
    }
}

} // verus!
