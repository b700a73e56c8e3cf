use vstd::prelude::*;

verus! {

/// A 32-byte account address, the identity of whoever sends a request.
#[derive(Clone, Copy, Debug, Hash)]
pub struct ActorId {
    pub bytes: [u8; 32],
}

impl ActorId {
    pub fn new(bytes: [u8; 32]) -> (r: ActorId)
        ensures
            r.bytes == bytes,
    {
        ActorId { bytes }
    }

    /// The address that encodes `n`: its eight little-endian bytes stand at
    /// offsets 12 to 19 and every other byte is zero, the layout gear uses
    /// for numeric addresses.
    pub fn from_u64(n: u64) -> (r: ActorId)
        ensures
            forall|i: int| 0 <= i < 12 ==> r.bytes[i] == 0u8,
            forall|i: int| 20 <= i < 32 ==> r.bytes[i] == 0u8,
            forall|i: int| 12 <= i < 20 ==> r.bytes[i] == ((n >> (8 * (i - 12) as u64)) & 0xff) as u8,
    {
        let mut bytes = [0u8; 32];
        let mut k: usize = 0;
        while k < 8
            invariant
                k <= 8,
                forall|i: int| 0 <= i < 12 ==> bytes[i] == 0u8,
                forall|i: int| 12 + k <= i < 32 ==> bytes[i] == 0u8,
                forall|i: int| 12 <= i < 12 + k ==> bytes[i] == ((n >> (8 * (i - 12) as u64)) & 0xff) as u8,
            decreases 8 - k,
        {
            bytes[k + 12] = ((n >> (8 * k as u64)) & 0xff) as u8;
            k = k + 1;
        }
        ActorId { bytes }
    }
}

/// Two addresses are equal exactly when all their bytes are.
pub proof fn lemma_actor_eq(a: ActorId, b: ActorId)
    ensures
        a.bytes@ == b.bytes@ <==> a == b,
{
    if a.bytes@ == b.bytes@ {
        assert forall|i: int| 0 <= i < 32 implies a.bytes[i] == b.bytes[i] by {
            assert(a.bytes@[i] == b.bytes@[i]);
        }
        assert(a.bytes =~= b.bytes);
    }
}

impl PartialEq for ActorId {
    fn eq(&self, other: &ActorId) -> (r: bool) {
        let mut i: usize = 0;
        while i < 32
            invariant
                i <= 32,
                forall|j: int| 0 <= j < i ==> self.bytes@[j] == other.bytes@[j],
            decreases 32 - i,
        {
            if self.bytes[i] != other.bytes[i] {
                return false;
            }
            i = i + 1;
        }
        assert(self.bytes@ =~= other.bytes@);
        true
    }
}

impl vstd::std_specs::cmp::PartialEqSpecImpl for ActorId {
    open spec fn obeys_eq_spec() -> bool {
        true
    }

    open spec fn eq_spec(&self, other: &ActorId) -> bool {
        self.bytes@ == other.bytes@
    }
}

impl Eq for ActorId {
}

} // verus!
