use vstd::prelude::*;

use crate::address::Address;
use crate::deriver::on_curve;
use crate::deriver::pda_candidate;
use crate::deriver::seeds_view;
use crate::deriver::valid_seed_list;
use crate::deriver::with_bump;
use crate::errors::CoreError;

verus! {

/// The fixed seed tag: the ASCII bytes of "user".
pub open spec fn user_tag() -> Seq<u8> {
    seq![117u8, 115u8, 101u8, 114u8]
}

/// The seed components used to derive a user's account address: the user's
/// own address followed by the fixed tag, in exactly that order.
pub open spec fn user_seed_components(payer: Seq<u8>) -> Seq<Seq<u8>> {
    seq![payer, user_tag()]
}

/// The capability presented to the external creation service in lieu of a
/// signature: the seed components of a derivation together with its bump.
/// The service recomputes the derivation from these and treats a match with
/// the requested address as proof of authority over it.
#[derive(Debug)]
pub struct ProofOfDerivation {
    pub seed_components: Vec<Vec<u8>>,
    pub bump: u8,
}

/// The proof's seed components as mathematical sequences.
pub open spec fn proof_components(p: ProofOfDerivation) -> Seq<Seq<u8>> {
    seeds_view(p.seed_components@)
}

/// The full seed list a proof stands for: its components with its bump
/// appended, exactly the list the derivation hashed.
pub open spec fn proof_full_seeds(p: ProofOfDerivation) -> Seq<Seq<u8>> {
    with_bump(proof_components(p), p.bump)
}

/// The fixed seed tag as a byte vector.
pub fn user_tag_bytes() -> (r: Vec<u8>)
    ensures
        r@ == user_tag(),
{
    let mut tag: Vec<u8> = Vec::new();
    tag.push(117);
    tag.push(115);
    tag.push(101);
    tag.push(114);
    proof {
        assert(tag@ =~= user_tag());
    }
    tag
}

/// The seed components for a user's derivation, as byte vectors:
/// `[payer, "user"]`, in exactly that order.
pub fn user_seeds(payer: &Address) -> (r: Vec<Vec<u8>>)
    ensures
        seeds_view(r@) == user_seed_components(payer@),
        valid_seed_list(seeds_view(r@)),
{
    let mut seeds: Vec<Vec<u8>> = Vec::new();
    seeds.push(payer.to_seed());
    seeds.push(user_tag_bytes());
    proof {
        assert(seeds_view(seeds@) =~~= user_seed_components(payer@));
    }
    seeds
}

/// Assemble the proof of derivation for a user's account: the same seed
/// components the derivation used — the user's address, then the fixed tag
/// — together with the bump the derivation returned.
pub fn build_proof(payer: &Address, bump: u8) -> (r: ProofOfDerivation)
    ensures
        proof_components(r) == user_seed_components(payer@),
        r.bump == bump,
{
    let seed_components = user_seeds(payer);
    ProofOfDerivation { seed_components, bump }
}

/// The authority check the external creation service applies: the proof's
/// seed components and bump must re-derive the claimed address, and that
/// address must lie off the signing curve. Anything else is an authority
/// mismatch; a mismatched proof is never silently accepted.
pub fn check_authority(
    derivation_proof: &ProofOfDerivation,
    program_id: &Address,
    claimed: &Address,
) -> (r: Result<(), CoreError>)
    requires
        valid_seed_list(proof_components(*derivation_proof)),
    ensures
        r is Ok <==> !on_curve(
            pda_candidate(proof_full_seeds(*derivation_proof), program_id@),
        ) && pda_candidate(proof_full_seeds(*derivation_proof), program_id@) == claimed@,
        r is Err ==> r == Err::<(), CoreError>(CoreError::AuthorityMismatch),
{
    match crate::deriver::candidate_for_bump(
        &derivation_proof.seed_components,
        derivation_proof.bump,
        program_id,
    ) {
        Some(address) => {
            if address.equals(claimed) {
                Ok(())
            } else {
                Err(CoreError::AuthorityMismatch)
            }
        },
        None => Err(CoreError::AuthorityMismatch),
    }
}

} // verus!
