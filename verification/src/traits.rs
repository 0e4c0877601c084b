//! Sinks that values can be pushed into.
use vstd::prelude::*;

verus! {

/// A sink that values are pushed into, one after the other.
pub trait OutputIter<T>: Sized {
    /// The values pushed so far, in order.
    spec fn pushed(&self) -> Seq<T>;

    fn push(&mut self, value: T)
        ensures
            final(self).pushed() == old(self).pushed().push(value),
    ;
}

impl<T> OutputIter<T> for Vec<T> {
    open spec fn pushed(&self) -> Seq<T> {
        self@
    }

    fn push(&mut self, value: T) {
        Vec::push(self, value);
    }
}

/// A sink that also counts what it holds.
pub trait CountingOutputIter<T>: OutputIter<T> {
    fn len(&self) -> (r: usize)
        ensures
            r == self.pushed().len(),
    ;
}

impl<T> CountingOutputIter<T> for Vec<T> {
    fn len(&self) -> (r: usize) {
        Vec::len(self)
    }
}

} // verus!
