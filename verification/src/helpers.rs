//! Arrays that are stored field by field and read record by record.
use vstd::prelude::*;

verus! {

/// A structure of arrays that can hand out the record made of the elements
/// at one index.
pub trait TransposedArray {
    /// The record made of the elements at one index.
    type Transposed;

    /// The record at `index`, as a specification.
    spec fn spec_get_index(&self, index: usize) -> Option<Self::Transposed>;

    /// The record at `index`, or nothing where the arrays hold no such index.
    fn get_index(&self, index: usize) -> (record: Option<Self::Transposed>)
        ensures
            record == self.spec_get_index(index),
    ;
}

/// Walks the records of a transposed array, from the first one on.
pub struct TransposeIndexer<I> {
    raw: I,
    now: usize,
}

impl<I: TransposedArray> TransposeIndexer<I> {
    /// The array that is walked.
    pub closed spec fn array(&self) -> I {
        self.raw
    }

    /// The index of the record that comes next.
    pub closed spec fn position(&self) -> usize {
        self.now
    }

    /// A walk over `raw` that starts at its first record.
    pub fn new(raw: I) -> (indexer: TransposeIndexer<I>)
        ensures
            indexer.array() == raw,
            indexer.position() == 0,
    {
        TransposeIndexer { raw, now: 0 }
    }

    /// The next record, or nothing where the array holds no further one.
    /// The walk moves on by one index either way.
    pub fn next(&mut self) -> (record: Option<I::Transposed>)
        requires
            old(self).position() < usize::MAX,
        ensures
            record == old(self).array().spec_get_index(old(self).position()),
            final(self).array() == old(self).array(),
            final(self).position() == old(self).position() + 1,
    {
        let record = self.raw.get_index(self.now);
        self.now += 1;
        record
    }
}

} // verus!
