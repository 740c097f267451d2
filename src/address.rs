use vstd::prelude::*;
use vstd::bytes::{spec_u64_to_le_bytes, u64_to_le_bytes, lemma_auto_spec_u64_to_from_le_bytes};
use crate::state::Address;

verus! {

/// The key of the program that owns every experiment account
/// (Cv9dh2aKWosf9nh7Qks2hkTurnLwTi4tX9XMqYY4d9oL).
pub const PROGRAM_ID: [u8; 32] = [
    177, 14, 25, 151, 155, 136, 75, 176, 224, 232, 233, 169, 118, 78, 84, 38,
    59, 189, 242, 88, 59, 44, 118, 92, 92, 81, 70, 177, 23, 248, 192, 143,
];

/// The program-derived address for `seeds` under `program_id`, or `None` where
/// no bump seed gives an address off the curve.
pub uninterp spec fn program_address(seeds: Seq<Seq<u8>>, program_id: Seq<u8>) -> Option<Seq<u8>>;

/// The seeds of an experiment's account: the authority's key, then the id in
/// little-endian bytes.
pub open spec fn experiment_seeds(authority: Address, experiment_id: u64) -> Seq<Seq<u8>> {
    seq![authority@, spec_u64_to_le_bytes(experiment_id)]
}

/// The address at which the experiment `(authority, experiment_id)` is stored.
pub open spec fn experiment_address(authority: Address, experiment_id: u64) -> Option<Seq<u8>> {
    program_address(experiment_seeds(authority, experiment_id), PROGRAM_ID@)
}

/// `r` is what the derivation gives for `(authority, experiment_id)`.
pub open spec fn is_experiment_address(authority: Address, experiment_id: u64, r: Option<Address>) -> bool {
    match experiment_address(authority, experiment_id) {
        Some(a) => r is Some && r->0@ == a,
        None => r is None,
    }
}

/// Relies on `Pubkey::try_find_program_address` of solana-program, re-exported
/// by anchor_lang: what it finds for two seeds and a program id depends on
/// those alone.
#[verifier::external_body]
fn try_find_program_address(first: &Address, second: &Vec<u8>, program_id: &Address) -> (r:
    Option<Address>)
    ensures
        match program_address(seq![first@, second@], program_id@) {
            Some(a) => r is Some && r->0@ == a,
            None => r is None,
        },
{
    let program = anchor_lang::prelude::Pubkey::new_from_array(program_id.bytes);
    let seeds: [&[u8]; 2] = [&first.bytes, second.as_slice()];
    anchor_lang::prelude::Pubkey::try_find_program_address(&seeds, &program).map(
        |found| Address { bytes: found.0.to_bytes() },
    )
}

/// Derives the address of the experiment `(authority, experiment_id)`; `None`
/// only where the seeds admit no program address.
pub fn derive_address(authority: &Address, experiment_id: u64) -> (r: Option<Address>)
    ensures
        is_experiment_address(*authority, experiment_id, r),
{
    let id_bytes = u64_to_le_bytes(experiment_id);
    let program = Address { bytes: PROGRAM_ID };
    try_find_program_address(authority, &id_bytes, &program)
}

/// Deriving is deterministic: two derivations for the same authority and id
/// give the same result.
pub proof fn lemma_address_deterministic(
    authority: Address,
    experiment_id: u64,
    r1: Option<Address>,
    r2: Option<Address>,
)
    requires
        is_experiment_address(authority, experiment_id, r1),
        is_experiment_address(authority, experiment_id, r2),
    ensures
        r1 == r2,
{
    if r1 is Some {
        assert(r1->0.bytes =~= r2->0.bytes);
    }
}

/// Distinct experiments are derived from distinct seeds: the seeds determine
/// both the authority and the id.
pub proof fn lemma_seeds_injective(a1: Address, id1: u64, a2: Address, id2: u64)
    requires
        experiment_seeds(a1, id1) == experiment_seeds(a2, id2),
    ensures
        a1 == a2,
        id1 == id2,
{
    lemma_auto_spec_u64_to_from_le_bytes();
    assert(experiment_seeds(a1, id1)[0] == experiment_seeds(a2, id2)[0]);
    assert(experiment_seeds(a1, id1)[1] == experiment_seeds(a2, id2)[1]);
    assert(a1.bytes =~= a2.bytes);
}

} // verus!
