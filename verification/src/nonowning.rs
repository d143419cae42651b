//! Non-owning views of values lent to foreign calls.

use vstd::prelude::*;

verus! {

/// A borrowed exposure of a value for the duration of a single foreign
/// call.
///
/// The view's holder must not free the value and must not retain it past
/// the call: both are enforced at the type level, because the wrapper only
/// carries a borrow. Dropping the wrapper is a no-op; only the original
/// owner's drop releases memory, so the same payload can be visible to host
/// and foreign code at once without a double release. The wrapped value is
/// observed exactly as the owner sees it.
pub struct NonOwning<'a, T> {
    value: &'a T,
}

impl<'a, T: View> View for NonOwning<'a, T> {
    type V = T::V;

    closed spec fn view(&self) -> T::V {
        self.value@
    }
}

impl<'a, T: View> NonOwning<'a, T> {
    /// Lends a value as a non-owning view.
    pub fn new(value: &'a T) -> (r: Self)
        ensures
            r@ == value@,
    {
        NonOwning { value }
    }

    /// Reads the value through the view, without taking ownership.
    pub fn borrowed(&self) -> (r: &'a T)
        ensures
            r@ == self@,
    {
        self.value
    }
}

} // verus!
