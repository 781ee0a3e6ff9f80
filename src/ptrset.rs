//! Sets of pages, compared by identity.
use vstd::prelude::*;

verus! {

/// The identity of a registered value (a page): issued once, compared as is.
#[derive(Clone, Copy, Debug, PartialEq, Eq, Hash, Structural)]
pub struct ComparePtr(pub usize);

impl ComparePtr {
    /// The identity itself.
    pub fn into_ptr(self) -> (r: usize)
        ensures
            r == self.0,
    {
        self.0
    }
}

/// A set of identities, in the order they were first inserted.
#[derive(Debug)]
pub struct PtrSet {
    pub items: Vec<usize>,
}

impl PtrSet {
    /// No identity is held twice.
    pub open spec fn wf(&self) -> bool {
        self.items@.no_duplicates()
    }

    /// Creates an empty set.
    pub fn new() -> (r: PtrSet)
        ensures
            r.wf(),
            r.items@.len() == 0,
    {
        PtrSet { items: Vec::new() }
    }

    /// Whether the set holds `value`.
    pub fn contains(&self, value: usize) -> (r: bool)
        ensures
            r == self.items@.contains(value),
    {
        let mut i: usize = 0;
        while i < self.items.len()
            invariant
                i <= self.items@.len(),
                forall|k: int| 0 <= k < i ==> self.items@[k] != value,
            decreases self.items@.len() - i,
        {
            if self.items[i] == value {
                return true;
            }
            i = i + 1;
        }
        false
    }

    /// Adds a value to the set; returns whether it was new.
    pub fn insert(&mut self, value: usize) -> (r: bool)
        requires
            old(self).wf(),
        ensures
            final(self).wf(),
            r == !old(self).items@.contains(value),
            final(self).items@ == if r {
                old(self).items@.push(value)
            } else {
                old(self).items@
            },
    {
        if self.contains(value) {
            false
        } else {
            self.items.push(value);
            true
        }
    }

    /// The values, in the order they were first inserted.
    pub fn iter(&self) -> (r: Vec<usize>)
        ensures
            r@ == self.items@,
    {
        let mut out: Vec<usize> = Vec::new();
        let mut i: usize = 0;
        while i < self.items.len()
            invariant
                i <= self.items@.len(),
                out@ == self.items@.subrange(0, i as int),
            decreases self.items@.len() - i,
        {
            out.push(self.items[i]);
            i = i + 1;
            proof {
                assert(out@ =~= self.items@.subrange(0, i as int));
            }
        }
        proof {
            assert(out@ =~= self.items@);
        }
        out
    }
}

} // verus!
