//! The container: an inline block of `MAX` slots and the count of live
//! elements at its front.

use vstd::prelude::*;
use crate::block::Block;

verus! {

/// A vector of at most `MAX` elements, stored inline. Its value is the
/// sequence of its live elements; what the slots behind them hold is never
/// read.
pub struct CopyArrayVec<T: Copy, const MAX: usize> {
    buf: Block<T, MAX>,
    len: usize,
}

impl<T: Copy, const MAX: usize> Clone for CopyArrayVec<T, MAX> {
    fn clone(&self) -> (v: Self)
        ensures
            v == *self,
    {
        *self
    }
}

impl<T: Copy, const MAX: usize> Copy for CopyArrayVec<T, MAX> {

}

impl<T: Copy, const MAX: usize> View for CopyArrayVec<T, MAX> {
    type V = Seq<T>;

    /// The live elements, in order.
    closed spec fn view(&self) -> Seq<T> {
        self.buf@.take(self.len as int)
    }
}

impl<T: Copy, const MAX: usize> Default for CopyArrayVec<T, MAX> {
    fn default() -> (v: Self)
        ensures
            v@ == Seq::<T>::empty(),
    {
        let v = CopyArrayVec { buf: Block::vacant(), len: 0 };
        assert(v@ =~= Seq::<T>::empty());
        v
    }
}

impl<T: Copy, const MAX: usize> CopyArrayVec<T, MAX> {
    /// Every live element lies in a slot that holds a value, and there are at
    /// most `MAX` of them.
    #[verifier::type_invariant]
    pub closed spec fn wf(self) -> bool {
        &&& self.len <= MAX
        &&& self.len <= self.buf@.len()
    }

    /// A well-formed container never holds more than `MAX` elements.
    pub proof fn len_within_capacity(self)
        requires
            self.wf(),
        ensures
            self@.len() <= MAX,
    {
    }

    pub open spec fn spec_len(&self) -> usize {
        self@.len() as usize
    }

    pub open spec fn spec_is_empty(&self) -> bool {
        self@.len() == 0
    }

    pub open spec fn spec_capacity(&self) -> usize {
        MAX
    }

    pub open spec fn spec_capacity_remaining(&self) -> usize {
        (MAX - self@.len()) as usize
    }

    pub open spec fn spec_is_full(&self) -> bool {
        self@.len() == MAX
    }

    /// An empty container.
    pub fn new() -> (v: Self)
        ensures
            v@ == Seq::<T>::empty(),
    {
        Self::default()
    }

    /// The number of live elements.
    #[verifier::when_used_as_spec(spec_len)]
    pub fn len(&self) -> (n: usize)
        ensures
            n == self@.len(),
            n <= MAX,
    {
        proof {
            use_type_invariant(self);
        }
        self.len
    }

    /// Whether there is no live element.
    #[verifier::when_used_as_spec(spec_is_empty)]
    pub fn is_empty(&self) -> (empty: bool)
        ensures
            empty <==> self@.len() == 0,
    {
        proof {
            use_type_invariant(self);
        }
        self.len == 0
    }

    /// Appends `el`. The container must not be full.
    pub fn push(&mut self, el: T)
        requires
            old(self)@.len() < MAX,
        ensures
            final(self)@ == old(self)@.push(el),
    {
        proof {
            use_type_invariant(&*self);
        }
        let next = self.len;
        if self.buf.is_vacant() {
            self.buf = Block::filled(el);
        } else {
            self.buf.set(next, el);
        }
        self.len = next + 1;
        assert(self@ =~= old(self)@.push(el));
    }

    /// Appends `el` if there is room for it, and hands it back untouched if
    /// there is none.
    pub fn try_push(&mut self, el: T) -> (r: Result<(), T>)
        ensures
            old(self)@.len() < MAX ==> r == Ok::<(), T>(()) && final(self)@ == old(self)@.push(el),
            old(self)@.len() >= MAX ==> r == Err::<(), T>(el) && *final(self) == *old(self),
    {
        if self.capacity_remaining() > 0 {
            self.push(el);
            Ok(())
        } else {
            Err(el)
        }
    }

    /// Takes the last element off, if there is one.
    pub fn pop(&mut self) -> (r: Option<T>)
        ensures
            old(self)@.len() == 0 ==> r.is_none() && *final(self) == *old(self),
            old(self)@.len() > 0 ==> r == Some(old(self)@.last()) && final(self)@ == old(
                self,
            )@.drop_last(),
    {
        if self.is_empty() {
            None
        } else {
            let last = self.len() - 1;
            let el = self.remove(last);
            assert(self@ =~= old(self)@.drop_last());
            Some(el)
        }
    }

    /// Takes the element at `i` out and closes the gap by moving the elements
    /// behind it down one slot, as one block. `i` must be the index of a live
    /// element.
    pub fn remove(&mut self, i: usize) -> (el: T)
        requires
            i < old(self)@.len(),
        ensures
            el == old(self)@[i as int],
            final(self)@ == old(self)@.remove(i as int),
    {
        proof {
            use_type_invariant(&*self);
        }
        let n = self.len;
        let el = self.buf.get(i);
        self.buf.shift(i + 1, n, i);
        self.len = n - 1;
        assert(self@ =~= old(self)@.remove(i as int));
        el
    }

    /// Puts `value` at index `i`, after moving the elements from `i` on up one
    /// slot, as one block. The container must not be full, and `i` must not lie
    /// beyond the end; at the end it appends.
    pub fn insert(&mut self, i: usize, value: T)
        requires
            old(self)@.len() < MAX,
            i <= old(self)@.len(),
        ensures
            final(self)@ == old(self)@.insert(i as int, value),
    {
        proof {
            use_type_invariant(&*self);
        }
        let n = self.len;
        if i == n {
            self.push(value);
        } else {
            proof {
                self.buf.all_or_none();
            }
            self.buf.shift(i, n, i + 1);
            self.buf.set(i, value);
            self.len = n + 1;
        }
        assert(self@ =~= old(self)@.insert(i as int, value));
    }

    /// Inserts as `insert` does if there is room, and hands `value` back
    /// untouched if the container is full, whatever `i` is. Where there is
    /// room, `i` must not lie beyond the end.
    pub fn try_insert(&mut self, i: usize, value: T) -> (r: Result<(), T>)
        requires
            old(self)@.len() < MAX ==> i <= old(self)@.len(),
        ensures
            old(self)@.len() < MAX ==> r == Ok::<(), T>(()) && final(self)@ == old(self)@.insert(
                i as int,
                value,
            ),
            old(self)@.len() >= MAX ==> r == Err::<(), T>(value) && *final(self) == *old(self),
    {
        if self.is_full() {
            Err(value)
        } else {
            self.insert(i, value);
            Ok(())
        }
    }

    /// How many more elements fit.
    #[verifier::when_used_as_spec(spec_capacity_remaining)]
    pub fn capacity_remaining(&self) -> (room: usize)
        ensures
            room == MAX - self@.len(),
    {
        proof {
            use_type_invariant(self);
        }
        MAX - self.len
    }

    /// Whether no further element fits.
    #[verifier::when_used_as_spec(spec_is_full)]
    pub fn is_full(&self) -> (full: bool)
        ensures
            full <==> self@.len() == MAX,
            self@.len() <= MAX,
    {
        self.capacity_remaining() == 0
    }

    /// The most elements the container can hold.
    #[verifier::when_used_as_spec(spec_capacity)]
    pub fn capacity(&self) -> (cap: usize)
        ensures
            cap == MAX,
    {
        MAX
    }

    /// Drops every element, without visiting any.
    pub fn clear(&mut self)
        ensures
            final(self)@ == Seq::<T>::empty(),
    {
        self.len = 0;
        assert(self@ =~= Seq::<T>::empty());
    }
}

impl<T: Copy, const MAX: usize> core::ops::Deref for CopyArrayVec<T, MAX> {
    type Target = [T];

    /// The live elements as a slice.
    fn deref(&self) -> (out: &[T])
        ensures
            out@ == self@,
    {
        proof {
            use_type_invariant(self);
        }
        self.buf.prefix(self.len)
    }
}

impl<T: Copy, const MAX: usize> core::ops::DerefMut for CopyArrayVec<T, MAX> {
    /// The live elements as a mutable slice: what is written through it is
    /// what the container then holds.
    fn deref_mut(&mut self) -> (out: &mut [T])
        ensures
            out@ == old(self)@,
            final(out)@.len() == old(self)@.len(),
            final(self)@ == final(out)@,
    {
        proof {
            use_type_invariant(&*self);
        }
        self.buf.prefix_mut(self.len)
    }
}

} // verus!
