use tc_bridge::error::BridgeError;
use tc_bridge::processor::{process_deposit, process_init_beacon, process_instruction, AccountView, BridgeEffects};
use tc_bridge::state::{OwnerInit, TcOwners};

const PID: [u8; 32] = [9u8; 32];

fn acct(key: [u8; 32], owner: [u8; 32], signer: bool, writable: bool, data: Vec<u8>) -> AccountView {
    AccountView { key, owner, is_signer: signer, is_writable: writable, data }
}

fn find_pda(seed: u8, pid: [u8; 32]) -> ([u8; 32], u8) {
    let p = solana_program::pubkey::Pubkey::new_from_array(pid);
    let (a, bump) = solana_program::pubkey::Pubkey::find_program_address(&[&[seed]], &p);
    (a.to_bytes(), bump)
}

fn custody_authority(proxy_key: [u8; 32], pid: [u8; 32]) -> ([u8; 32], u8) {
    let p = solana_program::pubkey::Pubkey::new_from_array(pid);
    let (a, bump) =
        solana_program::pubkey::Pubkey::find_program_address(&[proxy_key.as_ref()], &p);
    (a.to_bytes(), bump)
}

fn ata(wallet: [u8; 32], mint: [u8; 32]) -> [u8; 32] {
    let w = spl_token::solana_program::pubkey::Pubkey::new_from_array(wallet);
    let m = spl_token::solana_program::pubkey::Pubkey::new_from_array(mint);
    spl_associated_token_account::get_associated_token_address(&w, &m).to_bytes()
}

fn token_account_data(mint: [u8; 32]) -> Vec<u8> {
    let mut d = vec![0u8; 165];
    d[0..32].copy_from_slice(&mint);
    d[108] = 1;
    d
}

fn proxy_data(bump: u8, beacons: Vec<[u8; 64]>) -> Vec<u8> {
    let owners = TcOwners { is_initialized: true, bump_seed: bump, beacons };
    let mut buf = vec![0u8; 1283];
    owners.pack_into_slice(&mut buf);
    buf
}

fn deposit_accounts(mint: [u8; 32]) -> Vec<AccountView> {
    let proxy_key = [10u8; 32];
    let (authority, bump) = custody_authority(proxy_key, PID);
    let vault_key = ata(authority, mint);
    let spl_id = spl_token::id().to_bytes();
    vec![
        acct([20u8; 32], spl_id, false, true, token_account_data(mint)),
        acct(vault_key, spl_id, false, true, token_account_data(mint)),
        acct(proxy_key, PID, false, false, proxy_data(bump, vec![[1u8; 64]])),
        acct([30u8; 32], [0u8; 32], true, false, Vec::new()),
        acct(spl_id, [0u8; 32], false, false, Vec::new()),
    ]
}

#[test]
fn deposit_produces_transfer_and_receipt() {
    let mint = [3u8; 32];
    let accounts = deposit_accounts(mint);
    let eff = process_deposit(&accounts, 1000, [7u8; 20], &PID).unwrap();
    assert_eq!(eff.transfer.source, 0);
    assert_eq!(eff.transfer.destination, 1);
    assert_eq!(eff.transfer.authority, 3);
    assert_eq!(eff.transfer.amount, 1000);
    assert_eq!(eff.receipt.proxy_key, [10u8; 32]);
    assert_eq!(eff.receipt.tc_address, [7u8; 20]);
    assert_eq!(eff.receipt.token_mint, mint);
    assert_eq!(eff.receipt.amount, 1000);
}

#[test]
fn deposit_requires_signer() {
    let mint = [3u8; 32];
    let mut accounts = deposit_accounts(mint);
    accounts[3].is_signer = false;
    assert_eq!(
        process_deposit(&accounts, 1, [0u8; 20], &PID).unwrap_err(),
        BridgeError::MissingRequiredSignature
    );
}

#[test]
fn deposit_rejects_foreign_quorum_config() {
    let mint = [3u8; 32];
    let mut accounts = deposit_accounts(mint);
    accounts[2].owner = [1u8; 32];
    assert_eq!(
        process_deposit(&accounts, 1, [0u8; 20], &PID).unwrap_err(),
        BridgeError::IncorrectProgramId
    );
}

#[test]
fn deposit_rejects_vault_not_owned_by_token_program() {
    let mint = [3u8; 32];
    let mut accounts = deposit_accounts(mint);
    accounts[1].owner = [1u8; 32];
    assert_eq!(
        process_deposit(&accounts, 1, [0u8; 20], &PID).unwrap_err(),
        BridgeError::IncorrectProgramId
    );
}

#[test]
fn deposit_rejects_vault_that_is_not_the_derived_binding() {
    let mint = [3u8; 32];
    let mut accounts = deposit_accounts(mint);
    accounts[1].key = [42u8; 32];
    assert_eq!(
        process_deposit(&accounts, 1, [0u8; 20], &PID).unwrap_err(),
        BridgeError::IncorrectProgramId
    );
}

#[test]
fn deposit_rejects_uninitialized_quorum_config() {
    let mint = [3u8; 32];
    let mut accounts = deposit_accounts(mint);
    accounts[2].data[0] = 0;
    assert_eq!(
        process_deposit(&accounts, 1, [0u8; 20], &PID).unwrap_err(),
        BridgeError::UninitializedAccount
    );
}

#[test]
fn deposit_rejects_short_account_list() {
    let mint = [3u8; 32];
    let mut accounts = deposit_accounts(mint);
    accounts.truncate(4);
    assert_eq!(
        process_deposit(&accounts, 1, [0u8; 20], &PID).unwrap_err(),
        BridgeError::NotEnoughAccountKeys
    );
}

fn bootstrap_accounts() -> Vec<AccountView> {
    let (pda0, _) = find_pda(0, PID);
    let (pda1, _) = find_pda(1, PID);
    vec![
        acct(pda0, [0u8; 32], false, true, Vec::new()),
        acct(pda1, [0u8; 32], false, true, Vec::new()),
        acct([30u8; 32], [0u8; 32], true, false, Vec::new()),
        acct([0u8; 32], [0u8; 32], false, false, Vec::new()),
    ]
}

#[test]
fn bootstrap_creates_both_records() {
    let accounts = bootstrap_accounts();
    let beacons = vec![[1u8; 64], [2u8; 64], [3u8; 64]];
    let init = OwnerInit { beacons: beacons.clone() };
    let eff = process_init_beacon(&accounts, init, &PID).unwrap();
    let (_, bump0) = find_pda(0, PID);
    let (_, bump1) = find_pda(1, PID);
    assert_eq!(eff.create_owners.target, 0);
    assert_eq!(eff.create_owners.funder, 2);
    assert_eq!(eff.create_owners.space, 1283);
    assert_eq!(eff.create_owners.seed, 0);
    assert_eq!(eff.create_owners.bump, bump0);
    assert_eq!(eff.create_counter.target, 1);
    assert_eq!(eff.create_counter.space, 9);
    assert_eq!(eff.create_counter.seed, 1);
    assert_eq!(eff.create_counter.bump, bump1);
    assert_eq!(eff.counter_data, vec![1, 0, 0, 0, 0, 0, 0, 0, 0]);
    assert_eq!(eff.owners_data.len(), 1283);
    assert_eq!(eff.owners_data[0], 1);
    assert_eq!(eff.owners_data[1], bump0);
    assert_eq!(eff.owners_data[2], 3);
    let back = TcOwners::unpack_from_slice(&eff.owners_data).unwrap();
    assert_eq!(back.beacons, beacons);
}

#[test]
fn bootstrap_requires_signer() {
    let mut accounts = bootstrap_accounts();
    accounts[2].is_signer = false;
    let init = OwnerInit { beacons: Vec::new() };
    assert_eq!(
        process_init_beacon(&accounts, init, &PID).unwrap_err(),
        BridgeError::InvalidAuthorityAccount
    );
}

#[test]
fn bootstrap_rejects_existing_record() {
    let mut accounts = bootstrap_accounts();
    accounts[0].data = vec![0u8; 1283];
    let init = OwnerInit { beacons: Vec::new() };
    assert_eq!(
        process_init_beacon(&accounts, init, &PID).unwrap_err(),
        BridgeError::PDAAccountCreated
    );
}

#[test]
fn bootstrap_rejects_address_substitution() {
    let mut accounts = bootstrap_accounts();
    accounts[1].key = [5u8; 32];
    let init = OwnerInit { beacons: Vec::new() };
    assert_eq!(
        process_init_beacon(&accounts, init, &PID).unwrap_err(),
        BridgeError::PDAAccountCreated
    );
}

#[test]
fn bootstrap_rejects_oversized_beacon_list() {
    let accounts = bootstrap_accounts();
    let init = OwnerInit { beacons: vec![[0u8; 64]; 21] };
    assert_eq!(
        process_init_beacon(&accounts, init, &PID).unwrap_err(),
        BridgeError::InvalidAccountData
    );
}

#[test]
fn dispatch_routes_deposit() {
    let mint = [3u8; 32];
    let accounts = deposit_accounts(mint);
    let mut buf = vec![0u8];
    buf.extend_from_slice(&250u64.to_le_bytes());
    buf.extend_from_slice(&[4u8; 20]);
    match process_instruction(&PID, &accounts, &buf).unwrap() {
        BridgeEffects::Deposit(eff) => {
            assert_eq!(eff.transfer.amount, 250);
            assert_eq!(eff.receipt.tc_address, [4u8; 20]);
        }
        _ => panic!("expected deposit effects"),
    }
}

#[test]
fn dispatch_reports_decode_errors() {
    let accounts = bootstrap_accounts();
    assert_eq!(
        process_instruction(&PID, &accounts, &[77u8]).unwrap_err(),
        BridgeError::InvalidInstruction
    );
    assert_eq!(
        process_instruction(&PID, &accounts, &[]).unwrap_err(),
        BridgeError::InvalidInstruction
    );
}

#[test]
fn dispatch_routes_bootstrap() {
    let accounts = bootstrap_accounts();
    let mut buf = vec![2u8, 1];
    buf.extend_from_slice(&[8u8; 64]);
    match process_instruction(&PID, &accounts, &buf).unwrap() {
        BridgeEffects::InitOwners(eff) => {
            assert_eq!(eff.owners_data[2], 1);
        }
        _ => panic!("expected bootstrap effects"),
    }
}
