//! Conversion from one type into another, as the test runtimes plug it in.
use vstd::prelude::*;

verus! {

/// Converts a value of type `A` into one of type `B`.
pub trait Convert<A, B> {
    fn convert(a: A) -> B;
}

} // verus!
