//! The slot as the operations see it.
//!
//! To its users a slot is an `Option`: `None` while its memory is all zero, `Some` of
//! the value that it holds otherwise. Each operation is a step from one such state to
//! the next that hands something to the caller.

use vstd::prelude::*;
use crate::pattern::BitPattern;

verus! {

/// A state that a slot can show: an occupant is never a value whose representation is
/// all zero, since such memory reads as an empty slot.
pub open spec fn legal<T: BitPattern>(slot: Option<T>) -> bool {
    slot matches Some(occupant) ==> !occupant.all_zero()
}

/// What an empty slot shows once `content` has been written to it: the value, unless
/// its representation is all zero. Then the write leaves the memory as it was, and
/// the slot stays empty.
pub open spec fn written<T: BitPattern>(content: T) -> Option<T> {
    if content.all_zero() {
        None
    } else {
        Some(content)
    }
}

/// One step of a slot: the state that it is left in, and what the caller gets.
pub struct Step<T> {
    pub slot: Option<T>,
    pub out: Option<T>,
}

/// Filling: an occupied slot stays as it is and the caller gets `content` back; an
/// empty slot takes `content` and the caller gets nothing.
pub open spec fn fill_step<T: BitPattern>(slot: Option<T>, content: T) -> Step<T> {
    if slot is Some {
        Step { slot, out: Some(content) }
    } else {
        Step { slot: written(content), out: None }
    }
}

/// Vacating: the caller gets what the slot showed, and the slot is left empty.
pub open spec fn vacate_step<T>(slot: Option<T>) -> Step<T> {
    Step { slot: None, out: slot }
}

} // verus!
