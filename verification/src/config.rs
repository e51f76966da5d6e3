//! Shapes that module settings share.
use vstd::prelude::*;

verus! {

/// A setting that holds one of two kinds of value.
#[derive(Clone, Copy, Debug, PartialEq, Eq)]
pub enum Either<A, B> {
    First(A),
    Second(B),
}

/// A setting that holds a list of values.
#[derive(Clone, Debug, PartialEq)]
pub struct VecOr<T>(pub Vec<T>);

impl<T> Default for VecOr<T> {
    fn default() -> (r: Self)
        ensures
            r.0@.len() == 0,
    {
        VecOr(Vec::new())
    }
}

} // verus!
