use vstd::prelude::*;

use crate::address::Address;
use crate::errors::CoreError;

verus! {

/// The domain-separated hash that the host's key primitive computes from a
/// seed list and a program identity. Its value is a pure function of its
/// arguments; nothing further is assumed of it.
pub uninterp spec fn pda_candidate(seeds: Seq<Seq<u8>>, program_id: Seq<u8>) -> Seq<u8>;

/// Whether a 32-byte value is a valid point on the host's signing curve.
/// An address for which this is false can have no matching private key.
pub uninterp spec fn on_curve(key: Seq<u8>) -> bool;

/// The host's key primitive accepts at most this many seeds per derivation,
/// counting the bump seed.
pub const MAX_SEEDS: usize = 16;

/// The host's key primitive accepts seeds of at most this many bytes.
pub const MAX_SEED_LEN: usize = 32;

/// The byte strings of `seeds`, as mathematical sequences.
pub open spec fn seeds_view(seeds: Seq<Vec<u8>>) -> Seq<Seq<u8>> {
    seeds.map_values(|s: Vec<u8>| s@)
}

/// A seed list the key primitive accepts once the one-byte bump seed is
/// appended: strictly fewer than `MAX_SEEDS` entries, none longer than
/// `MAX_SEED_LEN` bytes.
pub open spec fn valid_seed_list(seeds: Seq<Seq<u8>>) -> bool {
    &&& seeds.len() < MAX_SEEDS
    &&& forall|i: int| 0 <= i < seeds.len() ==> #[trigger] seeds[i].len() <= MAX_SEED_LEN
}

/// The seed list with the one-byte bump seed appended.
pub open spec fn with_bump(seeds: Seq<Seq<u8>>, bump: u8) -> Seq<Seq<u8>> {
    seeds.push(seq![bump])
}

/// Whether the candidate address at this bump lies off the signing curve.
pub open spec fn off_curve_at(seeds: Seq<Seq<u8>>, program_id: Seq<u8>, bump: u8) -> bool {
    !on_curve(pda_candidate(with_bump(seeds, bump), program_id))
}

/// The derivation search, started at `bump` and counting down: the first
/// bump whose candidate lies off the signing curve wins; `None` once every
/// bump down to 0 has failed.
pub open spec fn derive_from(seeds: Seq<Seq<u8>>, program_id: Seq<u8>, bump: u8) -> Option<
    (Seq<u8>, u8),
>
    decreases bump,
{
    if off_curve_at(seeds, program_id, bump) {
        Some((pda_candidate(with_bump(seeds, bump), program_id), bump))
    } else if bump == 0 {
        None
    } else {
        derive_from(seeds, program_id, (bump - 1) as u8)
    }
}

/// What derivation returns: the search over bump values 255 down to 0.
pub open spec fn derive_spec(seeds: Seq<Seq<u8>>, program_id: Seq<u8>) -> Option<(Seq<u8>, u8)> {
    derive_from(seeds, program_id, 255)
}

/// Relies on solana_program::pubkey::Pubkey::create_program_address: it
/// hashes the seed list (here the caller's seeds plus the one-byte bump
/// seed) together with the program identity under a fixed domain separator —
/// a pure function of those arguments — and returns the hash exactly when it
/// is not a valid point on the signing curve, reporting an on-curve hash as
/// an error. Seed lists admitted by `valid_seed_list` stay within the
/// primitive's seed count and length limits, so no other error can occur.
#[verifier::external_body]
pub(crate) fn candidate_for_bump(seeds: &Vec<Vec<u8>>, bump: u8, program_id: &Address) -> (r: Option<
    Address,
>)
    requires
        valid_seed_list(seeds_view(seeds@)),
    ensures
        r matches Some(a) ==> a@ == pda_candidate(with_bump(seeds_view(seeds@), bump), program_id@)
            && !on_curve(a@),
        r is None ==> on_curve(pda_candidate(with_bump(seeds_view(seeds@), bump), program_id@)),
{
    let mut refs: Vec<&[u8]> = seeds.iter().map(|s| s.as_slice()).collect();
    let bump_seed = [bump];
    refs.push(&bump_seed);
    let pid = solana_program::pubkey::Pubkey::new_from_array(program_id.bytes);
    match solana_program::pubkey::Pubkey::create_program_address(&refs, &pid) {
        Ok(key) => Some(Address { bytes: key.to_bytes() }),
        Err(_) => None,
    }
}

/// Relies on solana_program::pubkey::Pubkey::is_on_curve: whether the
/// 32-byte value decompresses to a valid point on the signing curve, a pure
/// function of the bytes alone.
#[verifier::external_body]
fn key_on_curve(key: &Address) -> (r: bool)
    ensures
        r == on_curve(key@),
{
    solana_program::pubkey::Pubkey::new_from_array(key.bytes).is_on_curve()
}

/// Whether an address is a valid point on the signing curve. A derived
/// address never is, which is what rules out a matching private key.
pub fn address_is_on_curve(key: &Address) -> (r: bool)
    ensures
        r == on_curve(key@),
{
    key_on_curve(key)
}

/// Derive the off-curve address for a seed list: try bump values from 255
/// down to 0 and accept the first whose candidate hash lies off the signing
/// curve. Fails only when every bump yields an on-curve candidate.
pub fn find_derived_address(seeds: &Vec<Vec<u8>>, program_id: &Address) -> (r: Result<
    (Address, u8),
    CoreError,
>)
    requires
        valid_seed_list(seeds_view(seeds@)),
    ensures
        r matches Ok(p) ==> derive_spec(seeds_view(seeds@), program_id@) == Some((p.0@, p.1)),
        r matches Err(e) ==> e == CoreError::AddressDerivationExhausted && derive_spec(
            seeds_view(seeds@),
            program_id@,
        ) is None,
{
    let mut bump: u8 = 255;
    loop
        invariant
            valid_seed_list(seeds_view(seeds@)),
            derive_from(seeds_view(seeds@), program_id@, 255) == derive_from(
                seeds_view(seeds@),
                program_id@,
                bump,
            ),
        decreases bump,
    {
        match candidate_for_bump(seeds, bump, program_id) {
            Some(address) => {
                return Ok((address, bump));
            },
            None => {},
        }
        if bump == 0 {
            return Err(CoreError::AddressDerivationExhausted);
        }
        bump = bump - 1;
    }
}

/// Derivation is deterministic: the result is a pure function of the seed
/// list and the program identity, so any two derivations from the same
/// inputs return the same address and bump.
pub proof fn lemma_derivation_deterministic(
    seeds: Seq<Seq<u8>>,
    program_id: Seq<u8>,
    first: Option<(Seq<u8>, u8)>,
    second: Option<(Seq<u8>, u8)>,
)
    requires
        first == derive_spec(seeds, program_id),
        second == derive_spec(seeds, program_id),
    ensures
        first == second,
{
}

/// Every address the derivation search can return is the candidate hash at
/// the returned bump and lies off the signing curve.
proof fn lemma_derive_from_result(seeds: Seq<Seq<u8>>, program_id: Seq<u8>, bump: u8)
    ensures
        derive_from(seeds, program_id, bump) matches Some(p) ==> p.0 == pda_candidate(
            with_bump(seeds, p.1),
            program_id,
        ) && !on_curve(p.0),
    decreases bump,
{
    if !off_curve_at(seeds, program_id, bump) && bump != 0 {
        lemma_derive_from_result(seeds, program_id, (bump - 1) as u8);
    }
}

/// A successfully derived address is never a valid point on the signing
/// curve, so no private key for it can exist.
pub proof fn lemma_derived_address_off_curve(seeds: Seq<Seq<u8>>, program_id: Seq<u8>)
    ensures
        derive_spec(seeds, program_id) matches Some(p) ==> !on_curve(p.0),
{
    lemma_derive_from_result(seeds, program_id, 255);
}

/// Reproducing a derivation's seed list together with its bump re-derives
/// exactly the derived address: the candidate hash at the returned bump is
/// the returned address, and it lies off the curve. This is the fact the
/// authority check rests on.
pub proof fn lemma_proof_seeds_rederive(seeds: Seq<Seq<u8>>, program_id: Seq<u8>)
    ensures
        derive_spec(seeds, program_id) matches Some(p) ==> p.0 == pda_candidate(
            with_bump(seeds, p.1),
            program_id,
        ) && !on_curve(p.0),
{
    lemma_derive_from_result(seeds, program_id, 255);
}

} // verus!
