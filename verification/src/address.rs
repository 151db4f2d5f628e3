//! Values that carry an address: boxes, vectors, strings and references, and the
//! optional forms of a box and of a reference.
//!
//! An address that points at something is never the null address, so none of the
//! first group is ever all zero. An optional box or reference is stored in the space
//! of the address itself, with the null address standing for `None`.

use vstd::prelude::*;
use crate::pattern::BitPattern;

verus! {

/// A box is the address of its allocation, which is never null.
impl<T> BitPattern for Box<T> {
    open spec fn all_zero(&self) -> bool {
        false
    }

    fn is_all_zero(&self) -> (verdict: bool) {
        false
    }
}

/// A vector holds the address of its buffer, which is never null, not even while the
/// vector is empty.
impl<T> BitPattern for Vec<T> {
    open spec fn all_zero(&self) -> bool {
        false
    }

    fn is_all_zero(&self) -> (verdict: bool) {
        false
    }
}

/// A string is a vector of bytes.
impl BitPattern for String {
    open spec fn all_zero(&self) -> bool {
        false
    }

    fn is_all_zero(&self) -> (verdict: bool) {
        false
    }
}

/// A reference is the address of what it refers to, which is never null. This covers
/// string slices and slices, whose references carry a length beside the address.
impl<'a, T: ?Sized> BitPattern for &'a T {
    open spec fn all_zero(&self) -> bool {
        false
    }

    fn is_all_zero(&self) -> (verdict: bool) {
        false
    }
}

/// An optional box is stored as one address: that of the allocation, or null for
/// `None`.
impl<T> BitPattern for Option<Box<T>> {
    open spec fn all_zero(&self) -> bool {
        self is None
    }

    fn is_all_zero(&self) -> (verdict: bool) {
        self.is_none()
    }
}

/// An optional reference is stored as one address: that of what it refers to, or null
/// for `None`.
impl<'a, T> BitPattern for Option<&'a T> {
    open spec fn all_zero(&self) -> bool {
        self is None
    }

    fn is_all_zero(&self) -> (verdict: bool) {
        self.is_none()
    }
}

} // verus!
