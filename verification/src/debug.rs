//! The debug representation: the capacity and the live elements.

use vstd::prelude::*;
use core::fmt::Debug;
use core::fmt::Formatter;
use core::ops::Deref;
use crate::array_vec::CopyArrayVec;

verus! {

/// std's formatter, carried through untouched.
#[verifier::external_type_specification]
#[verifier::external_body]
pub struct ExFormatter<'a>(core::fmt::Formatter<'a>);

/// std's formatting error, carried through untouched.
#[verifier::external_type_specification]
#[verifier::external_body]
pub struct ExFmtError(core::fmt::Error);

/// Writes a struct of two named fields with std's `debug_struct` builder: a
/// number and a slice. Whether it succeeds is up to the formatter's sink.
#[verifier::external_body]
fn write_struct<Item: Debug>(
    f: &mut Formatter<'_>,
    name: &str,
    first: &str,
    number: usize,
    second: &str,
    items: &[Item],
) -> (r: Result<(), core::fmt::Error>) {
    f.debug_struct(name).field(first, &number).field(second, &items).finish()
}

impl<T: Copy, const MAX: usize> CopyArrayVec<T, MAX> {
    /// What the debug representation is made of: the struct's name, then the
    /// label and value of its two fields, the capacity and the live elements.
    /// The slots behind the live elements are no part of it.
    pub fn debug_parts(&self) -> (p: (&'static str, &'static str, usize, &'static str, &[T]))
        ensures
            p.0@ == "CopyArrayVec"@,
            p.1@ == "max"@,
            p.2 == MAX,
            p.3@ == "buf"@,
            p.4@ == self@,
    {
        ("CopyArrayVec", "max", MAX, "buf", self.deref())
    }
}

impl<T: Copy + Debug, const MAX: usize> Debug for CopyArrayVec<T, MAX> {
    /// Writes the parts that `debug_parts` gives, as they are.
    fn fmt(&self, f: &mut Formatter<'_>) -> (r: Result<(), core::fmt::Error>) {
        let (name, first, number, second, items) = self.debug_parts();
        write_struct(f, name, first, number, second, items)
    }
}

} // verus!
