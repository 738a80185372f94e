//! A clone-on-consume smart pointer.
//!
//! [`MuCow`] holds either a mutable borrow of data or an owned value of the same data. It reads
//! and writes in place whichever of the two it holds, and it copies borrowed data at one
//! point only: when the owned value is taken out of it. It is to `&mut` what
//! `std::borrow::Cow` is to `&`.
//!
//! The contracts measure borrowed and owned data against each other by their views; the trait
//! [`Borrowable`] says, for each kind of data, what an owned copy shows.

pub mod borrowable;
pub mod compare;
pub mod hashing;
pub mod pointer;
pub mod text;

pub use borrowable::Borrowable;
pub use borrowable::BorrowableMut;
pub use pointer::MuCow;
