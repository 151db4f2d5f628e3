//! The container.

use vstd::prelude::*;
use crate::model::{fill_step, legal, vacate_step, written, Step};
use crate::pattern::BitPattern;

verus! {

/// A container for at most one value, kept on the heap.
///
/// The bucket has no notion of being occupied apart from what it holds: it is empty
/// exactly if the memory of its slot is all zero. A value whose own representation is
/// all zero therefore cannot be told from no value, and a bucket that was given one
/// is empty. This is how the bucket is meant to work.
///
/// The slot holds the value that was last written to it, and `None` stands for
/// memory that was zeroed and not written to since. Every operation asks the held
/// value anew whether it is all zero, so a value that became all zero while it was
/// borrowed mutably leaves the bucket empty.
///
/// The slot is allocated when the bucket is made and released when the bucket is
/// dropped; a value that is still inside then is dropped with it, and so is an
/// all-zero value that a later one is written over. Reading needs shared access to
/// the bucket; filling, vacating and borrowing the occupant mutably need exclusive
/// access, so no two mutable borrows of the occupant are alive at once.
///
/// The view of a bucket is what it shows: `None` if empty, else `Some` of the occupant.
pub struct Bucket<T> {
    slot: Box<Option<T>>,
}

impl<T: BitPattern> View for Bucket<T> {
    type V = Option<T>;

    closed spec fn view(&self) -> Option<T> {
        match *self.slot {
            Some(content) => written(content),
            None => None,
        }
    }
}

/// Makes an empty bucket.
impl<T: BitPattern> Default for Bucket<T> {
    fn default() -> (bucket: Self)
        ensures
            bucket@ is None,
    {
        Bucket { slot: Box::new(None) }
    }
}

impl<T: BitPattern> Bucket<T> {
    /// Makes a bucket and moves `content` into it. The bucket then holds `content`,
    /// unless the representation of `content` is all zero: then it is empty.
    pub fn new(content: T) -> (bucket: Self)
        ensures
            bucket@ == written(content),
    {
        let mut bucket = Self::default();
        *bucket.slot = Some(content);
        bucket
    }

    /// Empties the bucket and returns the value that was inside, or `None` if the
    /// bucket was empty.
    pub fn vacate(&mut self) -> (content: Option<T>)
        ensures
            vacate_step(old(self)@) == (Step { slot: final(self)@, out: content }),
    {
        if self.is_empty() {
            return None;
        }
        (*self.slot).take()
    }

    /// Returns a reference to the occupant, or `None` if the bucket is empty.
    pub fn peek_ref(&self) -> (content: Option<&T>)
        ensures
            match self@ {
                Some(occupant) => content == Some(&occupant),
                None => content is None,
            },
    {
        if self.is_empty() {
            return None;
        }
        (*self.slot).as_ref()
    }

    /// Returns a mutable reference to the occupant, or `None` if the bucket is empty.
    /// What the occupant has become when the borrow ends is what the bucket holds from
    /// then on: if its representation has become all zero, the bucket is empty.
    pub fn peek_mut(&mut self) -> (content: Option<&mut T>)
        ensures
            match old(self)@ {
                Some(occupant) => content is Some && *content.unwrap() == occupant
                    && final(self)@ == written(*final(content.unwrap())),
                None => content is None && final(self)@ is None,
            },
    {
        if self.is_empty() {
            return None;
        }
        (*self.slot).as_mut()
    }

    /// Moves `content` into the bucket if the bucket is empty, and returns `None`. An
    /// occupied bucket is left as it is, and `content` comes back as `Some(content)`.
    pub fn fill(&mut self, content: T) -> (rejected: Option<T>)
        ensures
            fill_step(old(self)@, content) == (Step { slot: final(self)@, out: rejected }),
    {
        if !self.is_empty() {
            return Some(content);
        }
        *self.slot = Some(content);
        None
    }

    /// Tells whether the bucket is empty, that is, whether the memory of its slot is
    /// all zero. The bucket is only read.
    pub fn is_empty(&self) -> (empty: bool)
        ensures
            empty == (self@ is None),
    {
        match &*self.slot {
            Some(content) => content.is_all_zero(),
            None => true,
        }
    }

    /// Whatever was done to a bucket, what it shows is a legal state: its occupant, if
    /// it has one, is not all zero.
    pub proof fn shows_legal_state(&self)
        ensures
            legal(self@),
    {
    }
}

} // verus!
