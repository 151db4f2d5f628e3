//! Plain data: integers, truth values, characters, the unit value and arrays.
//!
//! None of these types carries an address, so what a value's memory holds follows
//! from the value alone.

use vstd::prelude::*;
use crate::pattern::{run_all_zero, scan, BitPattern};

verus! {

/// An integer is stored as its binary digits, so only the number zero is all zero.
impl BitPattern for u8 {
    open spec fn all_zero(&self) -> bool {
        *self == 0
    }

    fn is_all_zero(&self) -> (verdict: bool) {
        *self == 0
    }
}

/// An integer is stored as its binary digits, so only the number zero is all zero.
impl BitPattern for u16 {
    open spec fn all_zero(&self) -> bool {
        *self == 0
    }

    fn is_all_zero(&self) -> (verdict: bool) {
        *self == 0
    }
}

/// An integer is stored as its binary digits, so only the number zero is all zero.
impl BitPattern for u32 {
    open spec fn all_zero(&self) -> bool {
        *self == 0
    }

    fn is_all_zero(&self) -> (verdict: bool) {
        *self == 0
    }
}

/// An integer is stored as its binary digits, so only the number zero is all zero.
impl BitPattern for u64 {
    open spec fn all_zero(&self) -> bool {
        *self == 0
    }

    fn is_all_zero(&self) -> (verdict: bool) {
        *self == 0
    }
}

/// An integer is stored as its binary digits, so only the number zero is all zero.
impl BitPattern for u128 {
    open spec fn all_zero(&self) -> bool {
        *self == 0
    }

    fn is_all_zero(&self) -> (verdict: bool) {
        *self == 0
    }
}

/// An integer is stored as its binary digits, so only the number zero is all zero.
impl BitPattern for usize {
    open spec fn all_zero(&self) -> bool {
        *self == 0
    }

    fn is_all_zero(&self) -> (verdict: bool) {
        *self == 0
    }
}

/// An integer is stored as its binary digits, so only the number zero is all zero.
impl BitPattern for i8 {
    open spec fn all_zero(&self) -> bool {
        *self == 0
    }

    fn is_all_zero(&self) -> (verdict: bool) {
        *self == 0
    }
}

/// An integer is stored as its binary digits, so only the number zero is all zero.
impl BitPattern for i16 {
    open spec fn all_zero(&self) -> bool {
        *self == 0
    }

    fn is_all_zero(&self) -> (verdict: bool) {
        *self == 0
    }
}

/// An integer is stored as its binary digits, so only the number zero is all zero.
impl BitPattern for i32 {
    open spec fn all_zero(&self) -> bool {
        *self == 0
    }

    fn is_all_zero(&self) -> (verdict: bool) {
        *self == 0
    }
}

/// An integer is stored as its binary digits, so only the number zero is all zero.
impl BitPattern for i64 {
    open spec fn all_zero(&self) -> bool {
        *self == 0
    }

    fn is_all_zero(&self) -> (verdict: bool) {
        *self == 0
    }
}

/// An integer is stored as its binary digits, so only the number zero is all zero.
impl BitPattern for i128 {
    open spec fn all_zero(&self) -> bool {
        *self == 0
    }

    fn is_all_zero(&self) -> (verdict: bool) {
        *self == 0
    }
}

/// An integer is stored as its binary digits, so only the number zero is all zero.
impl BitPattern for isize {
    open spec fn all_zero(&self) -> bool {
        *self == 0
    }

    fn is_all_zero(&self) -> (verdict: bool) {
        *self == 0
    }
}

/// `false` is stored as the byte zero and `true` as the byte one.
impl BitPattern for bool {
    open spec fn all_zero(&self) -> bool {
        !*self
    }

    fn is_all_zero(&self) -> (verdict: bool) {
        !*self
    }
}

/// A character is stored as its code point, so only the character with code point
/// zero is all zero.
impl BitPattern for char {
    open spec fn all_zero(&self) -> bool {
        *self == '\0'
    }

    fn is_all_zero(&self) -> (verdict: bool) {
        *self == '\0'
    }
}

/// The unit value occupies no memory: there is no byte in it that could differ from
/// zero.
impl BitPattern for () {
    open spec fn all_zero(&self) -> bool {
        true
    }

    fn is_all_zero(&self) -> (verdict: bool) {
        true
    }
}

/// An array is stored as its items one after the other with nothing in between, so it
/// is all zero exactly if each item is. An array of bytes is its own representation.
impl<T: BitPattern, const N: usize> BitPattern for [T; N] {
    open spec fn all_zero(&self) -> bool {
        run_all_zero(self@)
    }

    fn is_all_zero(&self) -> (verdict: bool) {
        scan(self)
    }
}

} // verus!
