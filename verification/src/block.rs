//! The inline block of slots behind the container, and block moves inside it.

use vstd::prelude::*;

verus! {

/// What a block move leaves in a buffer that held `buf`: the `until - from`
/// elements that stood at `from` now stand at `to`, and every slot outside
/// that destination keeps what it held.
pub open spec fn moved<T>(buf: Seq<T>, from: int, until: int, to: int) -> Seq<T> {
    Seq::new(
        buf.len(),
        |k: int|
            if to <= k < to + (until - from) {
                buf[k - to + from]
            } else {
                buf[k]
            },
    )
}

/// Calls `copy_within` of std's slices on the whole array: one `memmove` of
/// the elements in `from..until` to the slots that start at `to`. The two
/// ranges may overlap. std panics when either range leaves the array or when
/// `until` lies before `from`; the precondition rules both out, so the call
/// returns.
#[verifier::external_body]
fn move_block<T: Copy, const N: usize>(buf: &mut [T; N], from: usize, until: usize, to: usize)
    requires
        from <= until <= N,
        to + (until - from) <= N,
    ensures
        final(buf)@ == moved(old(buf)@, from as int, until as int, to as int),
    no_unwind
{
    buf.copy_within(from..until, to);
}

/// Borrows the first `n` slots of the array as a mutable slice, by std's range
/// indexing. The slice starts out as those `n` elements and keeps that length
/// whatever is written through it; when the borrow ends the array holds what
/// the slice then holds, followed by its own untouched tail. std panics when
/// `n` exceeds the array's length, which the precondition rules out.
#[verifier::external_body]
fn head_mut<T: Copy, const N: usize>(buf: &mut [T; N], n: usize) -> (out: &mut [T])
    requires
        n <= N,
    ensures
        out@ == old(buf)@.take(n as int),
        final(out)@.len() == n,
        final(buf)@ == final(out)@ + old(buf)@.skip(n as int),
    no_unwind
{
    &mut buf[..n]
}

/// Room for `MAX` elements, held inline. No slot holds anything until the
/// block is filled, which puts one value into every slot.
pub struct Block<T: Copy, const MAX: usize> {
    cells: Option<[T; MAX]>,
}

impl<T: Copy, const MAX: usize> Clone for Block<T, MAX> {
    fn clone(&self) -> (b: Self)
        ensures
            b == *self,
    {
        *self
    }
}

impl<T: Copy, const MAX: usize> Copy for Block<T, MAX> {

}

impl<T: Copy, const MAX: usize> View for Block<T, MAX> {
    type V = Seq<T>;

    /// The slots that hold a value: all `MAX` of them, or none.
    closed spec fn view(&self) -> Seq<T> {
        match self.cells {
            Some(a) => a@,
            None => Seq::empty(),
        }
    }
}

impl<T: Copy, const MAX: usize> Block<T, MAX> {
    /// Either every slot holds a value or none does.
    pub proof fn all_or_none(self)
        ensures
            self@.len() == 0 || self@.len() == MAX,
    {
    }

    /// A block in which no slot holds a value yet.
    pub fn vacant() -> (b: Self)
        ensures
            b@.len() == 0,
    {
        Block { cells: None }
    }

    /// A block whose every slot holds `el`.
    pub fn filled(el: T) -> (b: Self)
        ensures
            b@ == Seq::new(MAX as nat, |k: int| el),
    {
        let b = Block { cells: Some([el; MAX]) };
        assert(b@ =~= Seq::new(MAX as nat, |k: int| el));
        b
    }

    pub fn is_vacant(&self) -> (vacant: bool)
        ensures
            vacant ==> self@.len() == 0,
            !vacant ==> self@.len() == MAX,
    {
        self.cells.is_none()
    }

    /// Reads slot `i`.
    pub fn get(&self, i: usize) -> (el: T)
        requires
            i < self@.len(),
        ensures
            el == self@[i as int],
    {
        match &self.cells {
            Some(a) => a[i],
            None => unreached(),
        }
    }

    /// Writes `el` into slot `i`.
    pub fn set(&mut self, i: usize, el: T)
        requires
            i < old(self)@.len(),
        ensures
            final(self)@ == old(self)@.update(i as int, el),
        no_unwind
    {
        if let Some(a) = &mut self.cells {
            a[i] = el;
        }
    }

    /// Moves the elements in `from..until` to the slots that start at `to`, as
    /// one block.
    pub fn shift(&mut self, from: usize, until: usize, to: usize)
        requires
            from <= until <= old(self)@.len(),
            to + (until - from) <= old(self)@.len(),
        ensures
            final(self)@ == moved(old(self)@, from as int, until as int, to as int),
        no_unwind
    {
        if let Some(a) = &mut self.cells {
            move_block(a, from, until, to);
        } else {
            assert(self@ =~= moved(old(self)@, from as int, until as int, to as int));
        }
    }

    /// The first `n` slots as a slice.
    pub fn prefix(&self, n: usize) -> (out: &[T])
        requires
            n <= self@.len(),
        ensures
            out@ == self@.take(n as int),
    {
        match &self.cells {
            Some(a) => {
                let s: &[T] = a;
                &s[0..n]
            },
            None => {
                let s: &[T] = &[];
                assert(s@ =~= self@.take(n as int));
                s
            },
        }
    }

    /// The first `n` slots as a mutable slice; the slots behind them stay as
    /// they are.
    pub fn prefix_mut(&mut self, n: usize) -> (out: &mut [T])
        requires
            n <= old(self)@.len(),
        ensures
            out@ == old(self)@.take(n as int),
            final(out)@.len() == n,
            final(self)@ == final(out)@ + old(self)@.skip(n as int),
        no_unwind
    {
        match &mut self.cells {
            Some(a) => head_mut(a, n),
            None => {
                let s: &mut [T] = &mut [];
                s
            },
        }
    }
}

} // verus!
