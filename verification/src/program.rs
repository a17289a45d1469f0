use vstd::prelude::*;

use crate::address::Address;
use crate::authority::build_proof;
use crate::authority::proof_components;
use crate::authority::proof_full_seeds;
use crate::authority::user_seed_components;
use crate::authority::user_seeds;
use crate::authority::ProofOfDerivation;
use crate::deriver::derive_spec;
use crate::deriver::find_derived_address;
use crate::deriver::lemma_proof_seeds_rederive;
use crate::deriver::on_curve;
use crate::deriver::pda_candidate;
use crate::errors::classify_service_error;
use crate::errors::spec_classify_service_error;
use crate::errors::CoreError;
use crate::request::build_request;
use crate::request::AccountCreationRequest;
use crate::request::ACCOUNT_SPACE;
use crate::request::CREATION_LAMPORTS;

verus! {

/// The host's per-account record: its address, balances, data and flags.
/// Opaque here; only its address is read, through a trusted conversion.
#[verifier::external_type_specification]
#[verifier::external_body]
pub struct ExAccountInfo<'a>(solana_program::account_info::AccountInfo<'a>);

/// Everything one invocation hands to the external creation service: the
/// creation request, the proof of authority over the derived address, and
/// the derivation result itself.
#[derive(Debug)]
pub struct CreateAccountPlan {
    pub request: AccountCreationRequest,
    pub derivation_proof: ProofOfDerivation,
    pub derived_address: Address,
    pub bump: u8,
}

/// A plan faithfully prepared for this program identity and payer: the
/// derivation succeeded and returned the plan's address and bump, the
/// request asks for the account at exactly that derived address with the
/// fixed funding and allocation policy, and the proof reproduces exactly
/// the seed components the derivation used.
pub open spec fn plan_matches(plan: CreateAccountPlan, program_id: Seq<u8>, payer: Seq<u8>) -> bool {
    &&& derive_spec(user_seed_components(payer), program_id) == Some(
        (plan.derived_address@, plan.bump),
    )
    &&& plan.request.payer@ == payer
    &&& plan.request.new_account == plan.derived_address
    &&& plan.request.lamports == CREATION_LAMPORTS
    &&& plan.request.space == ACCOUNT_SPACE
    &&& plan.request.owner@ == program_id
    &&& proof_components(plan.derivation_proof) == user_seed_components(payer)
    &&& plan.derivation_proof.bump == plan.bump
}

/// Prepare one create-account invocation from the supplied account list:
/// the payer, the target account and the creation service, in that fixed
/// order. Fewer than three entries fail with `MissingAccount` before any
/// derivation is attempted; otherwise the payer's address is derived and
/// the request and proof are assembled around it. The request asks for the
/// account at the derived address itself; the service writes the target
/// entry of the account list, so the two must agree for the call to
/// succeed, and the service enforces that.
pub fn prepare_create_account(program_id: &Address, account_keys: &Vec<Address>) -> (r: Result<
    CreateAccountPlan,
    CoreError,
>)
    ensures
        account_keys@.len() < 3 ==> r == Err::<CreateAccountPlan, CoreError>(
            CoreError::MissingAccount,
        ),
        account_keys@.len() >= 3 ==> (match r {
            Ok(plan) => plan_matches(plan, program_id@, account_keys@[0]@),
            Err(e) => e == CoreError::AddressDerivationExhausted && derive_spec(
                user_seed_components(account_keys@[0]@),
                program_id@,
            ) is None,
        }),
{
    if account_keys.len() < 3 {
        return Err(CoreError::MissingAccount);
    }
    let payer = account_keys[0];
    let seeds = user_seeds(&payer);
    let (derived_address, bump) = match find_derived_address(&seeds, program_id) {
        Ok(p) => p,
        Err(e) => {
            return Err(e);
        },
    };
    let request = build_request(
        &payer,
        &derived_address,
        CREATION_LAMPORTS,
        ACCOUNT_SPACE,
        program_id,
    );
    let derivation_proof = build_proof(&payer, bump);
    Ok(CreateAccountPlan { request, derivation_proof, derived_address, bump })
}

/// The 32-byte address in an account record's `key` field, a fixed datum of
/// the record that the host supplies.
pub uninterp spec fn account_key(info: solana_program::account_info::AccountInfo) -> Seq<u8>;

/// Relies on solana_program::account_info::AccountInfo: each entry's `key`
/// field is that account's 32-byte address; this copies the addresses out,
/// one per entry, in order.
#[verifier::external_body]
fn collect_account_keys<'a>(accounts: &[solana_program::account_info::AccountInfo<'a>]) -> (r:
    Vec<Address>)
    ensures
        r@.len() == accounts@.len(),
        forall|i: int| 0 <= i < accounts@.len() ==> #[trigger] r@[i]@ == account_key(accounts@[i]),
{
    accounts.iter().map(|a| Address { bytes: a.key.to_bytes() }).collect()
}

/// Relies on solana_program::system_instruction::create_account to encode
/// the request for the account-creation service, and on
/// solana_program::program::invoke_signed to submit it with the proof's
/// seed components plus bump as the signer seeds. Whether the service
/// accepts depends on state this library cannot see (whether the account
/// exists, the payer's balance, the service's authority check), so nothing
/// is assumed of the outcome; an error is handed back as the host's reply
/// code.
#[verifier::external_body]
fn submit_create_account<'a>(
    request: &AccountCreationRequest,
    derivation_proof: &ProofOfDerivation,
    accounts: &[solana_program::account_info::AccountInfo<'a>],
) -> (r: Result<(), u64>) {
    let instruction = solana_program::system_instruction::create_account(
        &solana_program::pubkey::Pubkey::new_from_array(request.payer.bytes),
        &solana_program::pubkey::Pubkey::new_from_array(request.new_account.bytes),
        request.lamports,
        request.space,
        &solana_program::pubkey::Pubkey::new_from_array(request.owner.bytes),
    );
    let mut seeds: Vec<&[u8]> = derivation_proof.seed_components.iter().map(
        |c| c.as_slice(),
    ).collect();
    let bump_seed = [derivation_proof.bump];
    seeds.push(&bump_seed);
    solana_program::program::invoke_signed(&instruction, accounts, &[&seeds]).map_err(u64::from)
}

/// Submit a prepared plan to the external account-creation service. On
/// success a new account exists at the requested address, owned by the
/// requested owner, sized and funded as the request says — an effect of the
/// service, not of this library. Every failure is the service's reply,
/// read through `classify_service_error` and surfaced unchanged.
pub fn invoke_plan<'a>(
    plan: &CreateAccountPlan,
    accounts: &[solana_program::account_info::AccountInfo<'a>],
) -> (r: Result<(), CoreError>)
    ensures
        r matches Err(e) ==> exists|code: u64| e == #[trigger] spec_classify_service_error(code),
{
    match submit_create_account(&plan.request, &plan.derivation_proof, accounts) {
        Ok(()) => Ok(()),
        Err(code) => Err(classify_service_error(code)),
    }
}

/// A faithfully prepared plan never fails the authority check: its proof's
/// seed components and bump re-derive exactly its derived address, which
/// lies off the signing curve, so the external service's recomputation
/// matches. A proof whose seed bytes or bump differ can only be accepted if
/// its own full seed list also hashes to the claimed address.
pub proof fn lemma_faithful_proof_accepted(plan: CreateAccountPlan, program_id: Seq<u8>, payer: Seq<u8>)
    requires
        plan_matches(plan, program_id, payer),
    ensures
        pda_candidate(proof_full_seeds(plan.derivation_proof), program_id)
            == plan.derived_address@,
        !on_curve(pda_candidate(proof_full_seeds(plan.derivation_proof), program_id)),
{
    lemma_proof_seeds_rederive(user_seed_components(payer), program_id);
}

/// The single entry operation: read the payer, the target account and the
/// creation service from the account list — in that fixed order, trailing
/// entries ignored — derive the payer's off-curve account address, and ask
/// the service to create the account at that derived address, proving
/// authority with the derivation's seed components and bump. Derivation is
/// attempted exactly when three accounts are present, and its exhaustion is
/// reported as such; every other failure is the service's reply. The
/// instruction payload is ignored.
pub fn process_instruction<'a>(
    program_id: &Address,
    accounts: &[solana_program::account_info::AccountInfo<'a>],
    _instruction_data: &[u8],
) -> (r: Result<(), CoreError>)
    ensures
        accounts@.len() < 3 ==> r == Err::<(), CoreError>(CoreError::MissingAccount),
        accounts@.len() >= 3 ==> r != Err::<(), CoreError>(CoreError::MissingAccount),
        accounts@.len() >= 3 ==> (r == Err::<(), CoreError>(CoreError::AddressDerivationExhausted)
            <==> derive_spec(
            user_seed_components(account_key(accounts@[0])),
            program_id@,
        ) is None),
        r matches Err(e) ==> e == CoreError::MissingAccount
            || e == CoreError::AddressDerivationExhausted || (exists|code: u64|
            e == #[trigger] spec_classify_service_error(code)),
{
    let account_keys = collect_account_keys(accounts);
    let plan = match prepare_create_account(program_id, &account_keys) {
        Ok(p) => p,
        Err(e) => {
            return Err(e);
        },
    };
    invoke_plan(&plan, accounts)
}

} // verus!
