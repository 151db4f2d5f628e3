//! What holds of every bucket, stated over the states that the operations' contracts
//! speak of.

use vstd::prelude::*;
use crate::model::{fill_step, legal, vacate_step, written, Step};
use crate::pattern::BitPattern;

verus! {

/// A bucket made with a value whose representation is not all zero is not empty.
pub proof fn nonzero_value_occupies<T: BitPattern>(value: T)
    requires
        !value.all_zero(),
    ensures
        !(written(value) is None),
{
}

/// A bucket made with a value whose representation is all zero is empty, although
/// the value was written to it.
pub proof fn zero_value_leaves_empty<T: BitPattern>(value: T)
    requires
        value.all_zero(),
    ensures
        written(value) is None,
{
}

/// Vacating a bucket made with a value whose representation is not all zero returns
/// that value, and vacating it again at once returns nothing.
pub proof fn vacate_returns_value_once<T: BitPattern>(value: T)
    requires
        !value.all_zero(),
    ensures
        vacate_step(written(value)).out == Some(value),
        vacate_step(vacate_step(written(value)).slot).out is None,
{
}

/// Vacating an empty bucket returns nothing and leaves it empty.
pub proof fn empty_yields_nothing<T: BitPattern>()
    ensures
        vacate_step(None::<T>) == (Step { slot: None::<T>, out: None::<T> }),
{
}

/// An occupied bucket turns a value away: the caller gets the same value back, and
/// the bucket holds what it held before.
pub proof fn occupied_rejects<T: BitPattern>(slot: Option<T>, value: T)
    requires
        slot is Some,
    ensures
        fill_step(slot, value) == (Step { slot, out: Some(value) }),
{
}

/// An empty bucket takes any value: the caller gets nothing back, and the bucket
/// shows the value as a bucket made with it would.
pub proof fn empty_accepts<T: BitPattern>(value: T)
    ensures
        fill_step(None, value) == (Step { slot: written(value), out: None }),
{
}

/// Round trip: a value whose representation is not all zero, put into an empty
/// bucket, comes out again when the bucket is vacated; the bucket is empty then and
/// takes the next value.
pub proof fn round_trip<T: BitPattern>(value: T, next: T)
    requires
        !value.all_zero(),
    ensures
        ({
            let filled = fill_step(None, value);
            let vacated = vacate_step(filled.slot);
            &&& filled.out is None
            &&& vacated.out == Some(value)
            &&& vacated.slot is None
            &&& fill_step(vacated.slot, next).out is None
        }),
{
}

/// What was changed through a mutable borrow of the occupant is what comes out: if
/// the occupant has become `now` by the end of the borrow, the bucket shows what a
/// bucket made with `now` would, and vacating it returns `now` unless the
/// representation of `now` is all zero.
pub proof fn mutation_comes_out<T: BitPattern>(now: T)
    ensures
        vacate_step(written(now)).out == (if now.all_zero() {
            None
        } else {
            Some(now)
        }),
{
}

/// No step leads out of the legal states: whatever is made, filled or vacated, an
/// occupant is never all zero, so every operation agrees on whether the bucket is
/// empty.
pub proof fn steps_keep_legal<T: BitPattern>(slot: Option<T>, value: T)
    requires
        legal(slot),
    ensures
        legal(written(value)),
        legal(fill_step(slot, value).slot),
        legal(vacate_step(slot).slot),
{
}

} // verus!
