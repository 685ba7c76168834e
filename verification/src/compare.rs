//! Equality and hashing of containers, by their live elements alone.

use vstd::prelude::*;
use vstd::std_specs::cmp::PartialEqSpec;
use vstd::std_specs::cmp::PartialEqSpecImpl;
use core::ops::Deref;
use core::hash::Hash;
use core::hash::Hasher;
use crate::array_vec::CopyArrayVec;

verus! {

/// Two sequences are alike when they have the same length and the elements'
/// own equality holds at every index.
pub open spec fn alike<T: PartialEq>(a: Seq<T>, b: Seq<T>) -> bool {
    &&& a.len() == b.len()
    &&& forall|k: int| 0 <= k < a.len() ==> #[trigger] a[k].eq_spec(&b[k])
}

impl<T: Copy + PartialEq, const MAX: usize, const OTHER: usize> PartialEq<
    CopyArrayVec<T, OTHER>,
> for CopyArrayVec<T, MAX> {
    fn eq(&self, other: &CopyArrayVec<T, OTHER>) -> (same: bool) {
        let a = self.deref();
        let b = other.deref();
        if a.len() != b.len() {
            return false;
        }
        let mut i: usize = 0;
        while i < a.len()
            invariant
                i <= a.len(),
                a.len() == b.len(),
                a@ == self@,
                b@ == other@,
                T::obeys_eq_spec() ==> forall|k: int|
                    0 <= k < i ==> #[trigger] a@[k].eq_spec(&b@[k]),
            decreases a.len() - i,
        {
            if a[i] != b[i] {
                return false;
            }
            i += 1;
        }
        true
    }
}

impl<T: Copy + PartialEq, const MAX: usize, const OTHER: usize> PartialEqSpecImpl<
    CopyArrayVec<T, OTHER>,
> for CopyArrayVec<T, MAX> {
    open spec fn obeys_eq_spec() -> bool {
        T::obeys_eq_spec()
    }

    open spec fn eq_spec(&self, other: &CopyArrayVec<T, OTHER>) -> bool {
        alike(self@, other@)
    }
}

impl<T: Copy + Eq, const MAX: usize> Eq for CopyArrayVec<T, MAX> {

}

/// `hash` of std's slices: feeds the length and then every element to the
/// hasher. Nothing is claimed of the state it leaves.
pub assume_specification<Elem: Hash, Sink: Hasher>[ <[Elem] as Hash>::hash::<Sink> ](
    items: &[Elem],
    state: &mut Sink,
);

impl<T: Copy + Hash, const MAX: usize> Hash for CopyArrayVec<T, MAX> {
    fn hash<H: Hasher>(&self, state: &mut H) {
        self.deref().hash(state)
    }
}

} // verus!
