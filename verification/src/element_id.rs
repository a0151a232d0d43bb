//! Identifiers of GUI elements.

use core::cmp::Ordering;
use vstd::prelude::*;
use vstd::std_specs::cmp::PartialOrdSpecImpl;

verus! {

/// The identifier of an element: the slot it lives in, and the generation of
/// that slot, which tells an element from an earlier one of the same slot.
#[derive(Copy, Clone, Debug, PartialEq, Eq, Structural, Hash, Ord)]
pub struct ElementId {
    pub id: u32,
    pub gen: u32,
}

impl ElementId {
    /// Creates a new ElementId with id and gen.
    pub fn new(id: u32, gen: u32) -> (e: ElementId)
        ensures
            e.id == id,
            e.gen == gen,
    {
        ElementId { id, gen }
    }

    /// How `self` stands to `other`: by slot first, by generation where the
    /// slots are the same.
    pub open spec fn precedence(self, other: ElementId) -> Ordering {
        if self.id < other.id {
            Ordering::Less
        } else if self.id > other.id {
            Ordering::Greater
        } else if self.gen < other.gen {
            Ordering::Less
        } else if self.gen > other.gen {
            Ordering::Greater
        } else {
            Ordering::Equal
        }
    }
}

impl PartialOrd for ElementId {
    fn partial_cmp(&self, other: &ElementId) -> (r: Option<Ordering>) {
        if self.id < other.id {
            Some(Ordering::Less)
        } else if self.id > other.id {
            Some(Ordering::Greater)
        } else {
            if self.gen < other.gen {
                Some(Ordering::Less)
            } else if self.gen > other.gen {
                Some(Ordering::Greater)
            } else {
                Some(Ordering::Equal)
            }
        }
    }
}

impl PartialOrdSpecImpl for ElementId {
    open spec fn obeys_partial_cmp_spec() -> bool {
        true
    }

    open spec fn partial_cmp_spec(&self, other: &ElementId) -> Option<Ordering> {
        Some(self.precedence(*other))
    }
}

} // verus!
