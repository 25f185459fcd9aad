//! An entry in the Vector Table.

use vstd::prelude::*;

verus! {

/// Entry `i` of a table of entry values.
pub open spec fn entry_at(s: Seq<usize>, i: usize) -> usize {
    s[i as int]
}

/// A table of entry values with entry `i` replaced by `v`.
pub open spec fn with_entry(s: Seq<usize>, i: usize, v: usize) -> Seq<usize> {
    s.update(i as int, v)
}

/// An entry in the Vector Table: the address of a handler, or a plain value.
#[derive(Clone, Copy, Debug, PartialEq, Eq, Structural)]
pub struct Vector {
    pub(crate) value: usize,
}

impl View for Vector {
    type V = usize;

    closed spec fn view(&self) -> usize {
        self.value
    }
}

impl Vector {
    /// Creates a reserved entry in a Vector Table. Defaults to a value of 0.
    pub fn reserved() -> (r: Self)
        ensures
            r@ == 0,
    {
        Self { value: 0 }
    }

    /// Creates an entry with the handler at address `handler`.
    pub fn target(handler: usize) -> (r: Self)
        ensures
            r@ == handler,
    {
        Self { value: handler }
    }

    /// Creates an entry with a predefined value.
    pub fn value(value: usize) -> (r: Self)
        ensures
            r@ == value,
    {
        Self { value }
    }

    /// Returns the raw value of this entry.
    pub fn raw(&self) -> (r: usize)
        ensures
            r == self@,
    {
        self.value
    }
}

} // verus!
