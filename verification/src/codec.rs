//! The container as a plain ordered sequence: what an encoder is handed, and
//! how a decoder fills a container from the elements it reads.

use vstd::prelude::*;
use core::ops::Deref;
use crate::array_vec::CopyArrayVec;

verus! {

/// A sequence had more elements than the container it was decoded into can
/// hold.
#[derive(Clone, Copy, Debug, PartialEq, Eq, Structural)]
pub struct LengthError {
    /// The length at which decoding gave up: one more than the capacity.
    pub length: usize,
}

/// What decoding `items` into a container of capacity `bound` gives: the
/// elements themselves if they fit, and the error that names the first length
/// beyond the bound if they do not.
pub open spec fn decoded<T>(items: Seq<T>, bound: usize) -> Result<Seq<T>, LengthError> {
    if items.len() <= bound {
        Ok(items)
    } else {
        Err(LengthError { length: (bound + 1) as usize })
    }
}

impl LengthError {
    /// The largest length that would have been accepted.
    pub fn bound(&self) -> (b: usize)
        requires
            self.length > 0,
        ensures
            b == self.length - 1,
    {
        self.length - 1
    }

    /// What the decoder would have accepted, in words.
    pub fn expected(&self) -> (text: &'static str)
        ensures
            text@ == "fewer elements in array"@,
    {
        "fewer elements in array"
    }
}

impl<T: Copy, const MAX: usize> CopyArrayVec<T, MAX> {
    /// What a decoder for this container says it is looking for.
    pub fn expecting() -> (text: &'static str)
        ensures
            text@ == "an array of max length {C}"@,
    {
        "an array of max length {C}"
    }

    /// The encoded form: the live elements in order, and nothing else.
    pub fn encode(&self) -> (items: &[T])
        ensures
            items@ == self@,
    {
        self.deref()
    }

    /// One step of decoding: takes in the element just read if there is room
    /// for it, and gives up with the container untouched if there is none.
    /// The count of elements read so far, this one included, must fit a
    /// `usize`.
    pub fn decode_element(&mut self, el: T) -> (r: Result<(), LengthError>)
        requires
            old(self)@.len() < usize::MAX,
        ensures
            old(self)@.len() < MAX ==> r == Ok::<(), LengthError>(()) && final(self)@ == old(
                self,
            )@.push(el),
            old(self)@.len() >= MAX ==> r == Err::<(), LengthError>(
                (LengthError { length: (MAX + 1) as usize }),
            ) && *final(self) == *old(self),
    {
        match self.try_push(el) {
            Ok(()) => Ok(()),
            Err(_) => Err(LengthError { length: self.capacity() + 1 }),
        }
    }

    /// Decodes a whole sequence: a container with exactly the elements of
    /// `items` if there are no more than `MAX` of them, and otherwise the
    /// error, with no container at all.
    pub fn decode(items: &[T]) -> (r: Result<Self, LengthError>)
        ensures
            match r {
                Ok(v) => decoded(items@, MAX) == Ok::<Seq<T>, LengthError>(v@),
                Err(e) => decoded(items@, MAX) == Err::<Seq<T>, LengthError>(e),
            },
    {
        let mut v = Self::new();
        let mut i: usize = 0;
        while i < items.len()
            invariant
                i <= items@.len(),
                i <= MAX,
                v@ == items@.take(i as int),
            decreases items@.len() - i,
        {
            match v.decode_element(items[i]) {
                Ok(()) => {},
                Err(e) => {
                    return Err(e);
                },
            }
            i += 1;
            assert(v@ =~= items@.take(i as int));
        }
        assert(items@.take(i as int) =~= items@);
        Ok(v)
    }
}

} // verus!
