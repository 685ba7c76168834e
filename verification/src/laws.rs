//! What holds of the container's operations taken together.

use vstd::prelude::*;
use vstd::std_specs::cmp::PartialEqSpec;
use crate::array_vec::CopyArrayVec;
use crate::codec::{decoded, LengthError};
use crate::compare::alike;

verus! {

/// Inserting `value` at any index up to the end and then removing at that
/// index gives `value` back and leaves the sequence as it was.
pub proof fn insert_then_remove<T: Copy, const MAX: usize>(
    v: CopyArrayVec<T, MAX>,
    i: int,
    value: T,
)
    requires
        v.wf(),
        v@.len() < MAX,
        0 <= i <= v@.len(),
    ensures
        v@.insert(i, value).len() == v@.len() + 1,
        v@.insert(i, value)[i] == value,
        v@.insert(i, value).remove(i) == v@,
{
    assert(v@.insert(i, value).remove(i) =~= v@);
}

/// Pushing `value` and then popping gives `value` back and leaves the
/// sequence, and so its length, as it was.
pub proof fn push_then_pop<T: Copy, const MAX: usize>(v: CopyArrayVec<T, MAX>, value: T)
    requires
        v.wf(),
        v@.len() < MAX,
    ensures
        v@.push(value).len() > 0,
        v@.push(value).last() == value,
        v@.push(value).drop_last() == v@,
{
    assert(v@.push(value).drop_last() =~= v@);
}

/// The room that is left and the room that is taken add up to the capacity.
pub proof fn room_and_len_make_capacity<T: Copy, const MAX: usize>(v: CopyArrayVec<T, MAX>)
    requires
        v.wf(),
    ensures
        v.capacity_remaining() + v.len() == v.capacity(),
        v.is_full() <==> v.capacity_remaining() == 0,
        v.is_empty() <==> v.capacity_remaining() == v.capacity(),
{
    v.len_within_capacity();
}

/// Pushing the elements of `items` one after the other makes its prefixes in
/// turn: the push of element `k` finds room exactly while `k` lies below the
/// capacity, and then gives the prefix that ends with that element.
pub proof fn pushes_fill_in_order<T>(items: Seq<T>, bound: usize, k: int)
    requires
        0 <= k < items.len(),
    ensures
        items.take(k).len() < bound <==> k < bound,
        items.take(k).push(items[k]) == items.take(k + 1),
        items.take(items.len() as int) == items,
{
    assert(items.take(k).push(items[k]) =~= items.take(k + 1));
    assert(items.take(items.len() as int) =~= items);
}

/// A container that holds as many elements as its capacity is full: no
/// further push is admitted, and a `try_push` is in the case in which it hands
/// the element back and changes nothing.
pub proof fn no_room_at_capacity<T: Copy, const MAX: usize>(v: CopyArrayVec<T, MAX>)
    requires
        v.wf(),
        v@.len() == MAX,
    ensures
        !(v@.len() < MAX),
        v@.len() >= MAX,
        v.is_full(),
        v.capacity_remaining() == 0,
{
}

/// Bulk construction takes all of a sequence or none of it: a sequence of
/// exactly the capacity is admitted, one that is longer is not, and no
/// sequence that fits a container is equal to one that is longer, so nothing
/// cut short can stand for it.
pub proof fn bulk_is_all_or_nothing<T>(items: Seq<T>, bound: usize)
    ensures
        items.len() == bound ==> items.len() <= bound,
        items.len() > bound ==> !(items.len() <= bound),
        items.len() > bound ==> forall|kept: Seq<T>| kept.len() <= bound ==> kept != items,
{
}

/// Decoding what a container encodes to, into a container of the same
/// capacity, gives its elements back.
pub proof fn encode_then_decode<T: Copy, const MAX: usize>(v: CopyArrayVec<T, MAX>)
    requires
        v.wf(),
    ensures
        decoded(v@, MAX) == Ok::<Seq<T>, LengthError>(v@),
{
    v.len_within_capacity();
}

/// A sequence longer than the capacity decodes to the length error, whatever
/// it holds, and the error names the first length beyond the capacity.
pub proof fn decode_too_long<T>(items: Seq<T>, bound: usize)
    requires
        items.len() > bound,
        bound < usize::MAX,
    ensures
        decoded(items, bound) matches Err(e) && e.length == bound + 1,
{
}

/// After a clear, the first push makes a sequence of that one element:
/// nothing of what was there before shows.
pub proof fn push_after_clear<T>(value: T)
    ensures
        Seq::<T>::empty().push(value) == seq![value],
        Seq::<T>::empty().push(value).len() == 1,
{
    assert(Seq::<T>::empty().push(value) =~= seq![value]);
}

/// Where the elements' own `==` is plain equality, two containers are equal
/// exactly when their live sequences are: capacities play no part.
pub proof fn alike_is_same_sequence<T: PartialEq>(a: Seq<T>, b: Seq<T>)
    requires
        forall|x: T, y: T| #[trigger] x.eq_spec(&y) <==> x == y,
    ensures
        alike(a, b) <==> a == b,
{
    if alike(a, b) {
        assert forall|k: int| 0 <= k < a.len() implies a[k] == b[k] by {
            assert(a[k].eq_spec(&b[k]));
        }
        assert(a =~= b);
    }
}

} // verus!
