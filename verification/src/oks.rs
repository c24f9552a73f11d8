//! Provides the `Oks` adapter, which yields each element of an owned
//! sequence as a success result.

use vstd::prelude::*;

use crate::Error;

verus! {

/// Oks: the remaining elements of a source sequence, handed out one by one,
/// each tagged as a success.
#[derive(Debug, Clone)]
pub struct Oks<T> {
    source: Vec<T>,
}

impl<T> View for Oks<T> {
    type V = Seq<T>;

    closed spec fn view(&self) -> Seq<T> {
        self.source@
    }
}

impl<T> Oks<T> {
    /// Yields the next remaining element wrapped in `Ok`, in source order,
    /// or `None` once the source is exhausted. Never yields an `Err`.
    pub fn next(&mut self) -> (r: Option<Result<T, Error>>)
        ensures
            old(self)@.len() == 0 ==> r is None && final(self)@ == old(self)@,
            old(self)@.len() > 0 ==> {
                &&& final(self)@ == old(self)@.drop_first()
                &&& r matches Some(item) && item matches Ok(x) && x == old(self)@[0]
            },
    {
        if self.source.len() == 0 {
            None
        } else {
            Some(Ok(self.source.remove(0)))
        }
    }
}

/// Conversion of an owned sequence into an `Oks` adapter over its elements.
pub trait OksExtension: Sized {
    /// The element type of the sequence.
    type Item;

    /// The elements of the sequence, in order.
    spec fn elements(self) -> Seq<Self::Item>;

    /// Wraps the sequence; the adapter will yield exactly its elements,
    /// in the same order, each tagged as a success.
    fn oks(self) -> (r: Oks<Self::Item>)
        ensures
            r@ == self.elements(),
    ;
}

impl<T> OksExtension for Vec<T> {
    type Item = T;

    open spec fn elements(self) -> Seq<T> {
        self@
    }

    fn oks(self) -> (r: Oks<T>)
        ensures
            r@ == self.elements(),
    {
        Oks { source: self }
    }
}

} // verus!
