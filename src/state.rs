use vstd::prelude::*;

verus! {

/// A 32-byte public key: the identity of a signer or the address of an account.
#[derive(Clone, Copy, Debug, PartialEq, Eq)]
pub struct Address {
    pub bytes: [u8; 32],
}

impl View for Address {
    type V = Seq<u8>;

    open spec fn view(&self) -> Seq<u8> {
        self.bytes@
    }
}

impl Address {
    pub fn new(bytes: [u8; 32]) -> (r: Address)
        ensures
            r.bytes == bytes,
    {
        Address { bytes }
    }

    /// Compares two keys byte by byte.
    pub fn same_as(&self, other: &Address) -> (r: bool)
        ensures
            r == (*self == *other),
    {
        let mut i: usize = 0;
        while i < 32
            invariant
                i <= 32,
                forall|j: int| 0 <= j < i ==> self.bytes[j] == other.bytes[j],
            decreases 32 - i,
        {
            if self.bytes[i] != other.bytes[i] {
                return false;
            }
            i = i + 1;
        }
        assert(self.bytes =~= other.bytes);
        true
    }
}

/// Where an experiment stands: it starts active and may be completed once.
#[derive(Clone, Copy, Debug, PartialEq, Eq, Structural)]
pub enum ExperimentStatus {
    Active,
    Completed,
}

/// The record kept for one experiment.
#[derive(Clone, Copy, Debug, PartialEq, Eq)]
pub struct Experiment {
    /// The only identity that may change this record; fixed at creation.
    pub authority: Address,
    /// The id chosen by the authority; fixed at creation.
    pub experiment_id: u64,
    /// How many events were appended.
    pub event_count: u64,
    pub status: ExperimentStatus,
    /// When the record was created; fixed at creation.
    pub created_at: i64,
}

} // verus!
