//! The seeds from which the mint's address is derived, and with which the
//! program signs for it.

use vstd::prelude::*;

verus! {

/// The fixed seed of the mint's address: the ASCII bytes of `mint`.
pub open spec fn mint_seed() -> Seq<u8> {
    seq![109u8, 105u8, 110u8, 116u8]
}

/// The seeds that sign for the mint: the fixed seed, then the bump.
pub open spec fn mint_signer_seeds(bump: u8) -> Seq<Seq<u8>> {
    seq![mint_seed(), seq![bump]]
}

pub fn mint_seed_bytes() -> (seed: Vec<u8>)
    ensures
        seed@ == mint_seed(),
{
    let mut seed: Vec<u8> = Vec::new();
    seed.push(109u8);
    seed.push(105u8);
    seed.push(110u8);
    seed.push(116u8);
    assert(seed@ =~= mint_seed());
    seed
}

pub fn signer_seeds(bump: u8) -> (seeds: Vec<Vec<u8>>)
    ensures
        seeds.deep_view() == mint_signer_seeds(bump),
{
    let mut last: Vec<u8> = Vec::new();
    last.push(bump);
    assert(last@ =~= seq![bump]);
    let mut seeds: Vec<Vec<u8>> = Vec::new();
    seeds.push(mint_seed_bytes());
    seeds.push(last);
    assert(seeds.deep_view() =~~= mint_signer_seeds(bump));
    seeds
}

} // verus!
