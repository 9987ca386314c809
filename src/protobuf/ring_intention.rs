//! An intention to ring the members of a group.

use vstd::prelude::*;

verus! {

#[derive(Clone, Debug, PartialEq)]
pub struct RingIntention {
    pub group_id: Option<Vec<u8>>,
    /// A `Type`, as an integer.
    pub kind: Option<i32>,
    /// Signed, so that it fits an SQLite integer column.
    pub ring_id: Option<i64>,
}

#[derive(Clone, Copy, Debug, PartialEq, Eq, Structural, Hash, PartialOrd, Ord)]
pub enum Type {
    Ring,
    Cancelled,
}

impl Type {
    pub open spec fn spec_value(self) -> i32 {
        match self {
            Type::Ring => 0,
            Type::Cancelled => 1,
        }
    }

    pub fn value(self) -> (r: i32)
        ensures
            r == self.spec_value(),
    {
        match self {
            Type::Ring => 0,
            Type::Cancelled => 1,
        }
    }

    pub fn from_i32(value: i32) -> (r: Option<Type>)
        ensures
            r matches Some(t) ==> t.spec_value() == value,
            forall|t: Type| t.spec_value() == value ==> r == Some(t),
    {
        match value {
            0 => Some(Type::Ring),
            1 => Some(Type::Cancelled),
            _ => None,
        }
    }
}

} // verus!
