//! Give up ownership of a value from method position.
//!
//! A value that is no longer needed is released when its scope ends, and a
//! trailing `;` turns any expression into `()`. In a closure or a `match` arm
//! neither is at hand without opening a block. `std::mem::drop` would do, but
//! it is a function and breaks a chain of method calls.
//!
//! [`Disown`] offers the same thing as a method: `value.disown()` takes the
//! value, releases it, and is `()`.
//!
//! ```
//! use disown::Disown;
//! use std::collections::HashSet;
//!
//! let mut seen = HashSet::new();
//! for word in ["a", "b", "a"] {
//!     match word {
//!         "a" => seen.insert(1).disown(),
//!         _ => seen.insert(2).disown(),
//!     }
//! }
//! assert_eq!(seen.len(), 2);
//! ```
//!
//! `HashSet::insert` returns a `bool`; `disown` makes each arm a `()`.
use vstd::prelude::*;

verus! {

/// Consume a value in method position.
///
/// Implemented once, for every type, with an empty body.
pub trait Disown {
    /// Takes ownership of `self` and releases it.
    ///
    /// There is no precondition: every value of every type may be disowned.
    /// The result is `()`. `self` is released inside the call, so when the
    /// call returns every mutable borrow that the value held is over, and
    /// each borrowed place has the value it had when the call was made. No
    /// invariant is opened on the way. This is what holds of a value that
    /// reaches the end of its scope, and nothing more is done to it here.
    fn disown(self) -> (r: ())
        ensures
            r == (),
            has_resolved(self),
        opens_invariants none
    ;
}

impl<T> Disown for T {
    /// The one body there is: empty, so that `self` goes out of scope in it.
    /// The clauses are those of the trait, set beside the code that meets
    /// them.
    fn disown(self) -> (r: ())
        ensures
            r == (),
            has_resolved(self),
    {
    }
}

} // verus!
