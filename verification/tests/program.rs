use pda_account::find_derived_address;
use pda_account::prepare_create_account;
use pda_account::process_instruction;
use pda_account::user_seeds;
use pda_account::Address;
use pda_account::CoreError;
use pda_account::ACCOUNT_SPACE;
use pda_account::CREATION_LAMPORTS;
use solana_program::account_info::AccountInfo;
use solana_program::pubkey::Pubkey;

fn plan_keys() -> (Address, Vec<Address>) {
    let program_id = Address::new([2u8; 32]);
    let payer = Address::new([4u8; 32]);
    let target = Address::new([6u8; 32]);
    let service = Address::new([0u8; 32]);
    (program_id, vec![payer, target, service])
}

#[test]
fn short_account_list_is_missing_account() {
    let (program_id, keys) = plan_keys();
    let two = vec![keys[0], keys[1]];
    match prepare_create_account(&program_id, &two) {
        Err(e) => assert_eq!(e, CoreError::MissingAccount),
        Ok(_) => panic!("expected an error"),
    }
}

#[test]
fn empty_account_list_is_missing_account() {
    let (program_id, _) = plan_keys();
    match prepare_create_account(&program_id, &Vec::new()) {
        Err(e) => assert_eq!(e, CoreError::MissingAccount),
        Ok(_) => panic!("expected an error"),
    }
}

#[test]
fn request_carries_fixed_policy() {
    let (program_id, keys) = plan_keys();
    let plan = match prepare_create_account(&program_id, &keys) {
        Ok(p) => p,
        Err(_) => panic!("expected a plan"),
    };
    assert_eq!(plan.request.space, 8);
    assert_eq!(plan.request.space, ACCOUNT_SPACE);
    assert_eq!(plan.request.lamports, 1_000_000_000);
    assert_eq!(plan.request.lamports, CREATION_LAMPORTS);
    assert_eq!(plan.request.owner.to_bytes(), program_id.to_bytes());
    assert_eq!(plan.request.payer.to_bytes(), keys[0].to_bytes());
    assert_eq!(
        plan.request.new_account.to_bytes(),
        plan.derived_address.to_bytes()
    );
}

#[test]
fn request_targets_derived_address_not_supplied_entry() {
    let (program_id, keys) = plan_keys();
    let plan = match prepare_create_account(&program_id, &keys) {
        Ok(p) => p,
        Err(_) => panic!("expected a plan"),
    };
    // The supplied target entry is an arbitrary key here, so it cannot
    // coincide with the derived address; the request must follow the
    // derivation, not the list.
    assert_ne!(plan.request.new_account.to_bytes(), keys[1].to_bytes());
    assert_eq!(
        plan.request.new_account.to_bytes(),
        plan.derived_address.to_bytes()
    );
}

#[test]
fn plan_proof_reproduces_derivation_seeds() {
    let (program_id, keys) = plan_keys();
    let plan = match prepare_create_account(&program_id, &keys) {
        Ok(p) => p,
        Err(_) => panic!("expected a plan"),
    };
    let payer = keys[0];
    assert_eq!(plan.derivation_proof.seed_components.len(), 2);
    assert_eq!(
        plan.derivation_proof.seed_components[0],
        payer.to_bytes().to_vec()
    );
    assert_eq!(plan.derivation_proof.seed_components[1], b"user".to_vec());
    assert_eq!(plan.derivation_proof.bump, plan.bump);
    let seeds = user_seeds(&payer);
    let (derived, bump) = match find_derived_address(&seeds, &program_id) {
        Ok(p) => p,
        Err(_) => panic!("derivation failed"),
    };
    assert_eq!(plan.derived_address.to_bytes(), derived.to_bytes());
    assert_eq!(plan.bump, bump);
}

#[test]
fn repeated_plans_for_one_user_agree() {
    let (program_id, keys) = plan_keys();
    let first = match prepare_create_account(&program_id, &keys) {
        Ok(p) => p,
        Err(_) => panic!("expected a plan"),
    };
    let second = match prepare_create_account(&program_id, &keys) {
        Ok(p) => p,
        Err(_) => panic!("expected a plan"),
    };
    assert_eq!(
        first.derived_address.to_bytes(),
        second.derived_address.to_bytes()
    );
    assert_eq!(first.bump, second.bump);
    assert_eq!(
        first.request.new_account.to_bytes(),
        second.request.new_account.to_bytes()
    );
}

#[test]
fn trailing_accounts_are_ignored() {
    let (program_id, mut keys) = plan_keys();
    let plan = match prepare_create_account(&program_id, &keys) {
        Ok(p) => p,
        Err(_) => panic!("expected a plan"),
    };
    keys.push(Address::new([9u8; 32]));
    keys.push(Address::new([10u8; 32]));
    let extended = match prepare_create_account(&program_id, &keys) {
        Ok(p) => p,
        Err(_) => panic!("expected a plan"),
    };
    assert_eq!(
        plan.derived_address.to_bytes(),
        extended.derived_address.to_bytes()
    );
    assert_eq!(plan.bump, extended.bump);
}

#[test]
fn process_instruction_rejects_two_accounts() {
    let payer_key = Pubkey::new_from_array([4u8; 32]);
    let target_key = Pubkey::new_from_array([6u8; 32]);
    let owner = Pubkey::new_from_array([0u8; 32]);
    let mut payer_lamports = 10_000_000_000u64;
    let mut target_lamports = 0u64;
    let mut payer_data: Vec<u8> = Vec::new();
    let mut target_data: Vec<u8> = Vec::new();
    let accounts = vec![
        AccountInfo::new(
            &payer_key,
            true,
            true,
            &mut payer_lamports,
            &mut payer_data,
            &owner,
            false,
            0,
        ),
        AccountInfo::new(
            &target_key,
            false,
            true,
            &mut target_lamports,
            &mut target_data,
            &owner,
            false,
            0,
        ),
    ];
    let program_id = Address::new([2u8; 32]);
    assert_eq!(
        process_instruction(&program_id, &accounts, &[]),
        Err(CoreError::MissingAccount)
    );
}

#[test]
fn process_instruction_submits_with_three_accounts() {
    let payer_key = Pubkey::new_from_array([4u8; 32]);
    let target_key = Pubkey::new_from_array([6u8; 32]);
    let service_key = Pubkey::new_from_array([0u8; 32]);
    let owner = Pubkey::new_from_array([0u8; 32]);
    let mut payer_lamports = 10_000_000_000u64;
    let mut target_lamports = 0u64;
    let mut service_lamports = 1u64;
    let mut payer_data: Vec<u8> = Vec::new();
    let mut target_data: Vec<u8> = Vec::new();
    let mut service_data: Vec<u8> = Vec::new();
    let accounts = vec![
        AccountInfo::new(
            &payer_key,
            true,
            true,
            &mut payer_lamports,
            &mut payer_data,
            &owner,
            false,
            0,
        ),
        AccountInfo::new(
            &target_key,
            false,
            true,
            &mut target_lamports,
            &mut target_data,
            &owner,
            false,
            0,
        ),
        AccountInfo::new(
            &service_key,
            false,
            false,
            &mut service_lamports,
            &mut service_data,
            &owner,
            true,
            0,
        ),
    ];
    let program_id = Address::new([2u8; 32]);
    // Off the host environment the creation service is a stub that accepts
    // every submission, so a well-formed account list must reach it and
    // come back successful.
    assert_eq!(process_instruction(&program_id, &accounts, &[]), Ok(()));
}
