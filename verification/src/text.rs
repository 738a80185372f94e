//! Text forms of a pointer, made by the formatter of whichever form of the data it holds.

use crate::pointer::MuCow;
use std::borrow::ToOwned;
use std::fmt::Debug;
use std::fmt::Display;
use vstd::prelude::*;
use vstd::string::to_string_from_display_ensures;

verus! {

/// Calls the `Debug` formatter of `T` on `t` through `format!`. Nothing is claimed of the text
/// that comes back.
#[verifier::external_body]
fn debug_text<T: ?Sized + Debug>(t: &T) -> (s: String) {
    format!("{:?}", t)
}

/// Whether `s` is a text that the `Debug` formatter of `T` has given for `t`.
pub closed spec fn debug_renders<T: ?Sized + Debug>(t: &T, s: String) -> bool {
    call_ensures(debug_text::<T>, (t,), s)
}

impl<'a, B: ?Sized + ToOwned> MuCow<'a, B> {
    /// The text that `Display` gives for the data: by the formatter of the borrowed form while
    /// borrowed, by that of the owned form once owned.
    pub fn to_string(&self) -> (s: String) where B: Display, <B as ToOwned>::Owned: Display
        ensures
            match self {
                MuCow::Borrowed(b) => to_string_from_display_ensures::<B>(&**b, s),
                MuCow::Owned(o) => to_string_from_display_ensures::<<B as ToOwned>::Owned>(o, s),
            },
    {
        match self {
            MuCow::Borrowed(b) => <B as ToString>::to_string(&**b),
            MuCow::Owned(o) => o.to_string(),
        }
    }

    /// The text that `Debug` gives for the data: by the formatter of the borrowed form while
    /// borrowed, by that of the owned form once owned.
    pub fn to_debug_string(&self) -> (s: String) where B: Debug, <B as ToOwned>::Owned: Debug
        ensures
            match self {
                MuCow::Borrowed(b) => debug_renders::<B>(&**b, s),
                MuCow::Owned(o) => debug_renders::<<B as ToOwned>::Owned>(o, s),
            },
    {
        match self {
            MuCow::Borrowed(b) => debug_text::<B>(&**b),
            MuCow::Owned(o) => debug_text(o),
        }
    }
}

} // verus!
