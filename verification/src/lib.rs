mod address;
mod authority;
mod deriver;
mod errors;
mod program;
mod request;

pub use address::Address;
pub use authority::build_proof;
pub use authority::check_authority;
pub use authority::proof_components;
pub use authority::proof_full_seeds;
pub use authority::user_seed_components;
pub use authority::user_seeds;
pub use authority::user_tag;
pub use authority::user_tag_bytes;
pub use authority::ProofOfDerivation;
pub use program::account_key;
pub use program::invoke_plan;
pub use program::lemma_faithful_proof_accepted;
pub use program::plan_matches;
pub use program::prepare_create_account;
pub use program::process_instruction;
pub use program::CreateAccountPlan;
pub use request::build_request;
pub use request::AccountCreationRequest;
pub use request::ACCOUNT_SPACE;
pub use request::CREATION_LAMPORTS;
pub use deriver::address_is_on_curve;
pub use deriver::derive_from;
pub use deriver::derive_spec;
pub use deriver::find_derived_address;
pub use deriver::lemma_derivation_deterministic;
pub use deriver::lemma_derived_address_off_curve;
pub use deriver::lemma_proof_seeds_rederive;
pub use deriver::off_curve_at;
pub use deriver::on_curve;
pub use deriver::pda_candidate;
pub use deriver::seeds_view;
pub use deriver::valid_seed_list;
pub use deriver::with_bump;
pub use deriver::MAX_SEEDS;
pub use deriver::MAX_SEED_LEN;
pub use errors::classify_service_error;
pub use errors::spec_classify_service_error;
pub use errors::CoreError;
pub use errors::ACCOUNT_IN_USE_CODE;
pub use errors::MISSING_SIGNATURE_CODE;
pub use errors::NEGATIVE_LAMPORTS_CODE;
