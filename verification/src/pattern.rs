//! Which values look like empty memory.
//!
//! Whether a slot is occupied is read off what it holds: memory made of zero bytes
//! only is an empty slot. A type that is to be held in a slot therefore has to say
//! which of its values have such a representation.

use vstd::prelude::*;

verus! {

/// A type whose values can tell whether their representation in memory consists of
/// zero bytes only.
///
/// The answer belongs to the value: two equal values give the same answer, and a
/// value gives the same answer every time it is asked. For a type made of parts that
/// lie side by side in memory with no gaps between them, a value is all zero exactly
/// if each part is.
pub trait BitPattern {
    /// Every byte of the value's representation is zero. A value that occupies no
    /// memory at all has this property.
    spec fn all_zero(&self) -> bool;

    /// Tests the value's representation for being all zero. The value is only read.
    fn is_all_zero(&self) -> (verdict: bool)
        ensures
            verdict == self.all_zero(),
    ;
}

/// Every value of the run has an all-zero representation, so the memory that the run
/// occupies is all zero.
pub open spec fn run_all_zero<T: BitPattern>(run: Seq<T>) -> bool {
    forall|i: int| 0 <= i < run.len() ==> (#[trigger] run[i]).all_zero()
}

/// Scans a buffer from its first item to its last and stops at the first item that is
/// not all zero. The verdict is `true` exactly if the scan found none, which is the
/// case for a buffer of length zero.
pub fn scan<T: BitPattern>(buffer: &[T]) -> (verdict: bool)
    ensures
        verdict == run_all_zero(buffer@),
{
    let mut at: usize = 0;
    while at < buffer.len()
        invariant
            at <= buffer@.len(),
            forall|i: int| 0 <= i < at ==> (#[trigger] buffer@[i]).all_zero(),
        decreases buffer@.len() - at,
    {
        if !buffer[at].is_all_zero() {
            return false;
        }
        at += 1;
    }
    true
}

} // verus!
