use vstd::prelude::*;
use vstd::std_specs::cmp::PartialEqSpecImpl;

verus! {

/// Whether two thirty-two byte arrays hold the same bytes.
fn same_bytes(a: &[u8; 32], b: &[u8; 32]) -> (r: bool)
    ensures
        r == (*a == *b),
{
    let mut i: usize = 0;
    while i < 32
        invariant
            i <= 32,
            forall|j: int| 0 <= j < i ==> a@[j] == b@[j],
        decreases 32 - i,
    {
        if a[i] != b[i] {
            return false;
        }
        i = i + 1;
    }
    assert(*a =~= *b);
    true
}

/// Identity of an actor: thirty-two opaque bytes.
#[derive(Clone, Copy, Debug, Eq)]
pub struct ActorId(pub [u8; 32]);

impl PartialEq for ActorId {
    fn eq(&self, other: &ActorId) -> (r: bool) {
        same_bytes(&self.0, &other.0)
    }
}

impl PartialEqSpecImpl for ActorId {
    open spec fn obeys_eq_spec() -> bool {
        true
    }

    open spec fn eq_spec(&self, other: &ActorId) -> bool {
        *self == *other
    }
}

/// Handle of a prepaid execution credit: thirty-two opaque bytes.
#[derive(Clone, Copy, Debug, Eq)]
pub struct ReservationId(pub [u8; 32]);

impl PartialEq for ReservationId {
    fn eq(&self, other: &ReservationId) -> (r: bool) {
        same_bytes(&self.0, &other.0)
    }
}

impl PartialEqSpecImpl for ReservationId {
    open spec fn obeys_eq_spec() -> bool {
        true
    }

    open spec fn eq_spec(&self, other: &ReservationId) -> bool {
        *self == *other
    }
}

} // verus!
