use vstd::bytes::{spec_u64_to_le_bytes, u64_to_le_bytes};
use vstd::prelude::*;

verus! {

/// The namespace tag under which entity addresses are derived: the ASCII
/// bytes of `entity_seed`.
pub const ENTITY_SEED: [u8; 11] = [101, 110, 116, 105, 116, 121, 95, 115, 101, 101, 100];

/// The seeds of a list as byte sequences, in order.
pub open spec fn seeds_view(seeds: Seq<Vec<u8>>) -> Seq<Seq<u8>> {
    Seq::new(seeds.len(), |i: int| seeds[i]@)
}

/// The seeds from which the address of entity `id` is derived: the namespace
/// tag, then the identifier in little-endian order.
pub open spec fn entity_seeds_of(id: u64) -> Seq<Seq<u8>> {
    seq![ENTITY_SEED@, spec_u64_to_le_bytes(id)]
}

/// The program-derived address and bump seed that belong to `seeds` under
/// the program `program_id`, or `None` where there is none.
pub uninterp spec fn program_address(seeds: Seq<Seq<u8>>, program_id: Seq<u8>) -> Option<
    (Seq<u8>, u8),
>;

/// Calls `Pubkey::try_find_program_address` of `anchor_lang`. The contract
/// claims only that the outcome depends on the seeds and the program
/// identifier alone, and gives that outcome the name `program_address`.
/// Nothing is proved of it.
#[verifier::external_body]
fn try_find_program_address(seeds: &Vec<Vec<u8>>, program_id: &[u8; 32]) -> (r: Option<
    ([u8; 32], u8),
>)
    ensures
        match r {
            Some((address, bump)) => program_address(seeds_view(seeds@), program_id@) == Some(
                (address@, bump),
            ),
            None => program_address(seeds_view(seeds@), program_id@) is None,
        },
{
    let parts: Vec<&[u8]> = seeds.iter().map(|seed| seed.as_slice()).collect();
    let program = anchor_lang::prelude::Pubkey::new_from_array(*program_id);
    anchor_lang::prelude::Pubkey::try_find_program_address(&parts, &program).map(
        |(address, bump)| (address.to_bytes(), bump),
    )
}

/// Builds the seeds of entity `id`.
pub fn entity_seeds(id: u64) -> (r: Vec<Vec<u8>>)
    ensures
        seeds_view(r@) == entity_seeds_of(id),
{
    let mut tag: Vec<u8> = Vec::new();
    let mut i: usize = 0;
    while i < 11
        invariant
            i <= 11,
            tag@ == ENTITY_SEED@.subrange(0, i as int),
        decreases 11 - i,
    {
        tag.push(ENTITY_SEED[i]);
        proof {
            assert(tag@ =~= ENTITY_SEED@.subrange(0, i + 1));
        }
        i += 1;
    }
    proof {
        assert(tag@ =~= ENTITY_SEED@);
    }
    let mut seeds: Vec<Vec<u8>> = Vec::new();
    seeds.push(tag);
    seeds.push(u64_to_le_bytes(id));
    proof {
        assert(seeds_view(seeds@) =~= entity_seeds_of(id));
    }
    seeds
}

/// Derives the storage address of entity `id` under the program
/// `program_id`, with the bump seed that goes with it.
pub fn find_entity_address(id: u64, program_id: &[u8; 32]) -> (r: Option<([u8; 32], u8)>)
    ensures
        match r {
            Some((address, bump)) => program_address(entity_seeds_of(id), program_id@) == Some(
                (address@, bump),
            ),
            None => program_address(entity_seeds_of(id), program_id@) is None,
        },
{
    let seeds = entity_seeds(id);
    try_find_program_address(&seeds, program_id)
}

} // verus!
