//! Integer identity of a registered instrument.
use vstd::prelude::*;
use std::cmp::Ordering;
use vstd::std_specs::cmp::PartialOrdSpec;

verus! {

/// Integer identity of an instrument in a reference book.
#[derive(Clone, Copy, Debug, PartialEq, Eq, Hash, Ord, Structural)]
pub struct InstrumentId(pub u64);

impl InstrumentId {
    /// Wraps an integer as an instrument identity.
    pub fn new(id: u64) -> (r: InstrumentId)
        ensures
            r.0 == id,
    {
        InstrumentId(id)
    }

    /// Returns the underlying integer.
    pub fn as_u64(self) -> (r: u64)
        ensures
            r == self.0,
    {
        self.0
    }
}

/// How two identities with integers `a` and `b` compare: as the integers do.
pub open spec fn id_order(a: u64, b: u64) -> Ordering {
    if a < b {
        Ordering::Less
    } else if a == b {
        Ordering::Equal
    } else {
        Ordering::Greater
    }
}

impl PartialOrd for InstrumentId {
    fn partial_cmp(&self, other: &InstrumentId) -> (r: Option<Ordering>) {
        if self.0 < other.0 {
            Some(Ordering::Less)
        } else if self.0 == other.0 {
            Some(Ordering::Equal)
        } else {
            Some(Ordering::Greater)
        }
    }
}

impl vstd::std_specs::cmp::PartialOrdSpecImpl for InstrumentId {
    open spec fn obeys_partial_cmp_spec() -> bool {
        true
    }

    open spec fn partial_cmp_spec(&self, other: &InstrumentId) -> Option<Ordering> {
        Some(id_order(self.0, other.0))
    }
}

/// Identities built from integers are equal exactly when the integers are, and
/// order as the integers do.
pub proof fn law_instrument_id_follows_integer(a: u64, b: u64)
    ensures
        (InstrumentId(a) == InstrumentId(b)) <==> (a == b),
        InstrumentId(a).partial_cmp_spec(&InstrumentId(b)) == Some(id_order(a, b)),
        (id_order(a, b) == Ordering::Less) <==> (a < b),
        (id_order(a, b) == Ordering::Equal) <==> (a == b),
        (id_order(a, b) == Ordering::Greater) <==> (a > b),
{
}

impl From<u64> for InstrumentId {
    fn from(id: u64) -> (r: InstrumentId) {
        InstrumentId(id)
    }
}

impl vstd::std_specs::convert::FromSpecImpl<u64> for InstrumentId {
    open spec fn obeys_from_spec() -> bool {
        true
    }

    open spec fn from_spec(v: u64) -> InstrumentId {
        InstrumentId(v)
    }
}

impl From<InstrumentId> for u64 {
    fn from(id: InstrumentId) -> (r: u64) {
        id.0
    }
}

impl vstd::std_specs::convert::FromSpecImpl<InstrumentId> for u64 {
    open spec fn obeys_from_spec() -> bool {
        true
    }

    open spec fn from_spec(v: InstrumentId) -> u64 {
        v.0
    }
}

} // verus!
