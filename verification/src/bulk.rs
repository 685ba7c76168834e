//! Filling a container from a whole sequence at once.

use vstd::prelude::*;
use crate::array_vec::CopyArrayVec;

verus! {

impl<T: Copy, const MAX: usize> CopyArrayVec<T, MAX> {
    /// Appends the elements of `items`, in order. All of them must fit.
    pub fn extend_from_slice(&mut self, items: &[T])
        requires
            old(self)@.len() + items@.len() <= MAX,
        ensures
            final(self)@ == old(self)@ + items@,
    {
        let mut i: usize = 0;
        while i < items.len()
            invariant
                i <= items@.len(),
                old(self)@.len() + items@.len() <= MAX,
                self@ == old(self)@ + items@.take(i as int),
            decreases items@.len() - i,
        {
            self.push(items[i]);
            i += 1;
            assert(self@ =~= old(self)@ + items@.take(i as int));
        }
        assert(items@.take(i as int) =~= items@);
    }

    /// A container that holds the elements of `items`, in order. There must be
    /// no more than `MAX` of them.
    pub fn from_slice(items: &[T]) -> (v: Self)
        requires
            items@.len() <= MAX,
        ensures
            v@ == items@,
    {
        let mut v = Self::new();
        v.extend_from_slice(items);
        assert(v@ =~= items@);
        v
    }
}

} // verus!
