//! A slot of the global descriptor table.

use core::cmp::Ordering;
use vstd::prelude::*;
use vstd::std_specs::cmp::PartialOrdSpecImpl;

verus! {

/// One 64-bit slot of the descriptor table. An entry is its bit pattern and
/// nothing else: two entries are equal exactly if every bit matches, and they
/// are ordered as their patterns are, read as numbers.
#[derive(Clone, Copy, PartialEq, Eq, Structural, Ord, Hash, Debug)]
pub struct Entry(u64);

impl View for Entry {
    type V = u64;

    closed spec fn view(&self) -> u64 {
        self.0
    }
}

impl Entry {
    /// The entry with the bit pattern `raw`.
    pub fn new(raw: u64) -> (entry: Self)
        ensures
            entry@ == raw,
    {
        Self(raw)
    }

    /// The bits of the entry, as they are stored.
    pub fn raw(&self) -> (raw: u64)
        ensures
            raw == self@,
    {
        self.0
    }

    /// Entries with the same bits are the same entry.
    pub proof fn lemma_equal_by_bits(self, other: Entry)
        ensures
            (self == other) <==> (self@ == other@),
    {
    }
}

impl PartialOrd for Entry {
    fn partial_cmp(&self, other: &Self) -> (order: Option<Ordering>) {
        if self.0 < other.0 {
            Some(Ordering::Less)
        } else if self.0 == other.0 {
            Some(Ordering::Equal)
        } else {
            Some(Ordering::Greater)
        }
    }
}

impl PartialOrdSpecImpl for Entry {
    open spec fn obeys_partial_cmp_spec() -> bool {
        true
    }

    /// Entries compare as their bit patterns do.
    open spec fn partial_cmp_spec(&self, other: &Self) -> Option<Ordering> {
        if self@ < other@ {
            Some(Ordering::Less)
        } else if self@ == other@ {
            Some(Ordering::Equal)
        } else {
            Some(Ordering::Greater)
        }
    }
}

} // verus!
