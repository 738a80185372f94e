//! Hashing of a pointer, which feeds the hasher the data and nothing of the variant.

use crate::borrowable::Borrowable;
use crate::pointer::MuCow;
use std::hash::Hash;
use std::hash::Hasher;
use std::ops::Deref;
use vstd::prelude::*;

verus! {

/// Calls `Hash::hash` of `T` on `t` with the hasher `state`. Nothing is claimed of what the
/// hasher holds afterwards.
#[verifier::external_body]
fn feed<T: ?Sized + Hash, H: Hasher>(t: &T, state: &mut H) {
    t.hash(state)
}

/// Whether feeding `t` to a hasher by `Hash::hash` of `T`, once and with nothing else, can
/// take the hasher from what `state` holds to what `state` ends up holding.
pub closed spec fn fed<T: ?Sized + Hash, H: Hasher>(t: &T, state: &mut H) -> bool {
    call_ensures(feed::<T, H>, (t, state), ())
}

impl<'a, B: ?Sized + Borrowable + Hash> Hash for MuCow<'a, B> {
    /// Feeds the hasher the data that `deref` gives, as `Hash` of `B` feeds them, and
    /// nothing for the variant: a borrowing and an owning pointer are hashed alike.
    fn hash<H: Hasher>(&self, state: &mut H)
        ensures
            exists|d: &B, m: &mut H|
                self.lends(d) && *m == *old(state) && *final(m) == *final(state)
                    && #[trigger] fed::<B, H>(d, m),
    {
        let d = self.deref();
        feed(d, state);
        proof {
            assert(forall|m: &mut H| #[trigger]
                call_ensures(feed::<B, H>, (d, m), ()) ==> fed::<B, H>(d, m));
        }
    }
}

/// Two pointers whose data have equal views, whatever their variants, leave hashers that
/// held the same holding the same: this as long as what `Hash` of `B` feeds is settled by
/// the view.
pub proof fn lemma_hash_ignores_variant<'a, 'b, B: ?Sized + Borrowable + Hash, H: Hasher>(
    p: MuCow<'a, B>,
    q: MuCow<'b, B>,
)
    requires
        p@ == q@,
        forall|d1: &B, d2: &B, m1: &mut H, m2: &mut H|
            d1@ == d2@ && *m1 == *m2 && #[trigger] fed::<B, H>(d1, m1) && #[trigger] fed::<B, H>(
                d2,
                m2,
            ) ==> *final(m1) == *final(m2),
    ensures
        forall|d1: &B, d2: &B, m1: &mut H, m2: &mut H|
            p.lends(d1) && q.lends(d2) && *m1 == *m2 && #[trigger] fed::<B, H>(d1, m1)
                && #[trigger] fed::<B, H>(d2, m2) ==> *final(m1) == *final(m2),
{
}

} // verus!
