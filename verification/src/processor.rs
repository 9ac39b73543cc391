use vstd::prelude::*;
use vstd::slice::slice_subrange;
use crate::canonical::{encode_sign_data, spec_sign_data_json};
use crate::chain::{
    associated_token_address, associated_token_address_of, create_program_address,
    find_address_of, find_derived_address, keccak_hash, keccak_of, native_mint_id,
    program_address_of, secp256k1_recover_key, secp_recover_of, spec_native_mint_id,
    spec_spl_token_id, spec_token_account_mint, spl_token_id, unpack_token_account_mint,
};
use crate::error::BridgeError;
use crate::instruction::{spec_unpack_instruction, BridgeInstruction, BridgeInstructionView};
use crate::state::{
    spec_pack_nonces, spec_pack_tc_owners, spec_unpack_nonces, spec_unpack_tc_owners_checked,
    spec_unpack_tc_owners_unchecked, Nonces, OwnerInit, SignData, SignDataView, TcOwners,
    TcOwnersView, WithdrawRequest, WithdrawRequestView,
};
use crate::util::to_array_64;

verus! {

/// What a handler reads of one account reference handed in by the host
/// runtime: its address, the program that owns it, the signer and
/// writability flags of this operation, and its persisted data.
pub struct AccountView {
    pub key: [u8; 32],
    pub owner: [u8; 32],
    pub is_signer: bool,
    pub is_writable: bool,
    pub data: Vec<u8>,
}

/// One token transfer to perform, by indexes into the operation's account
/// list.
#[derive(Clone, Copy, Debug, PartialEq, Eq, Structural)]
pub struct TransferAction {
    pub source: usize,
    pub destination: usize,
    pub authority: usize,
    pub amount: u64,
}

/// One token account to close, by indexes into the operation's account list.
#[derive(Clone, Copy, Debug, PartialEq, Eq, Structural)]
pub struct CloseAction {
    pub account: usize,
    pub destination: usize,
    pub authority: usize,
}

/// One storage record to allocate at a derived address, by indexes into the
/// operation's account list, with the seed byte and bump that sign the
/// allocation.
#[derive(Clone, Copy, Debug, PartialEq, Eq, Structural)]
pub struct CreateAccountAction {
    pub target: usize,
    pub funder: usize,
    pub space: u64,
    pub seed: u8,
    pub bump: u8,
}

/// The observability record of a successful deposit: destination-chain
/// address, asset identifier and amount, correlated by the quorum-config
/// address.
#[derive(Clone, Copy, Debug)]
pub struct DepositReceipt {
    pub proxy_key: [u8; 32],
    pub tc_address: [u8; 20],
    pub token_mint: [u8; 32],
    pub amount: u64,
}

/// The effects of a validated deposit.
#[derive(Debug)]
pub struct DepositEffects {
    pub transfer: TransferAction,
    pub receipt: DepositReceipt,
}

/// The effects of a validated withdrawal: the advanced replay counter to
/// write back, the signer seeds of the custody authority, and the transfers
/// (plus native-asset closes) to perform in order.
#[derive(Debug)]
pub struct WithdrawEffects {
    pub counter_account: usize,
    pub counter_data: Vec<u8>,
    pub consumed_counter: u64,
    pub authority_seed_key: [u8; 32],
    pub authority_bump: u8,
    pub transfers: Vec<TransferAction>,
    pub closes: Vec<CloseAction>,
}

/// The effects of a validated bootstrap: allocate the two records and write
/// their initial contents.
#[derive(Debug)]
pub struct InitOwnersEffects {
    pub create_owners: CreateAccountAction,
    pub owners_data: Vec<u8>,
    pub create_counter: CreateAccountAction,
    pub counter_data: Vec<u8>,
}

/// The effects of one decoded, validated instruction.
#[derive(Debug)]
pub enum BridgeEffects {
    Deposit(DepositEffects),
    Withdraw(WithdrawEffects),
    InitOwners(InitOwnersEffects),
}

/// The outcome of the vault-binding check: the vault token account must be
/// the associated token account of the custody authority derived from the
/// quorum config's bump seed, for the mint the vault itself records.
/// `None` means the check passes.
pub open spec fn spec_verify_vault_err(
    tc_owner: AccountView,
    vault: AccountView,
    program_id: Seq<u8>,
) -> Option<BridgeError> {
    match spec_token_account_mint(vault.data@) {
        Err(e) => Some(e),
        Ok(mint) => match spec_unpack_tc_owners_checked(tc_owner.data@) {
            Err(e) => Some(e),
            Ok(t) => match program_address_of(tc_owner.key@, t.bump_seed, program_id) {
                None => Some(BridgeError::InvalidSeeds),
                Some(authority) => if associated_token_address_of(authority, mint)
                    != vault.key@ {
                    Some(BridgeError::IncorrectProgramId)
                } else {
                    None
                },
            },
        },
    }
}

/// The first error of the deposit chain, or `None` when every check passes.
/// Account roles: 0 depositor token source, 1 vault, 2 quorum config,
/// 3 depositor (signer), 4 token program.
pub open spec fn spec_deposit_err(accounts: Seq<AccountView>, program_id: Seq<u8>) -> Option<
    BridgeError,
> {
    if accounts.len() < 4 {
        Some(BridgeError::NotEnoughAccountKeys)
    } else if !accounts[3].is_signer {
        Some(BridgeError::MissingRequiredSignature)
    } else if accounts.len() < 5 {
        Some(BridgeError::NotEnoughAccountKeys)
    } else if accounts[2].owner@ != program_id {
        Some(BridgeError::IncorrectProgramId)
    } else if accounts[1].owner@ != spec_spl_token_id() {
        Some(BridgeError::IncorrectProgramId)
    } else {
        spec_verify_vault_err(accounts[2], accounts[1], program_id)
    }
}

/// The effects a successful deposit must carry: one transfer of the stated
/// amount from the depositor's token account to the vault, authorized by
/// the depositor, and the observability record.
pub open spec fn spec_deposit_effects_ok(
    eff: DepositEffects,
    accounts: Seq<AccountView>,
    amount: u64,
    tc_address: Seq<u8>,
) -> bool {
    &&& eff.transfer == TransferAction { source: 0, destination: 1, authority: 3, amount }
    &&& eff.receipt.proxy_key@ == accounts[2].key@
    &&& eff.receipt.tc_address@ == tc_address
    &&& eff.receipt.token_mint@ == spec_token_account_mint(accounts[1].data@)->Ok_0
    &&& eff.receipt.amount == amount
}

/// Compare two 32-byte identifiers.
pub fn bytes32_eq(a: &[u8; 32], b: &[u8; 32]) -> (r: bool)
    ensures
        r == (a@ == b@),
{
    let mut i: usize = 0;
    while i < 32
        invariant
            0 <= i <= 32,
            forall|j: int| 0 <= j < i ==> a@[j] == b@[j],
        decreases 32 - i,
    {
        if a[i] != b[i] {
            return false;
        }
        i = i + 1;
    }
    proof {
        assert(a@ =~= b@);
    }
    true
}

/// Compare two 64-byte keys.
pub fn bytes64_eq(a: &[u8; 64], b: &[u8; 64]) -> (r: bool)
    ensures
        r == (a@ == b@),
{
    let mut i: usize = 0;
    while i < 64
        invariant
            0 <= i <= 64,
            forall|j: int| 0 <= j < i ==> a@[j] == b@[j],
        decreases 64 - i,
    {
        if a[i] != b[i] {
            return false;
        }
        i = i + 1;
    }
    proof {
        assert(a@ =~= b@);
    }
    true
}

/// Verify that `vault` is the unique custody token account bound to the
/// quorum configuration, and return the vault's mint.
pub fn verify_vault_token_account(
    tc_owner: &AccountView,
    vault: &AccountView,
    program_id: &[u8; 32],
) -> (r: Result<[u8; 32], BridgeError>)
    ensures
        match r {
            Ok(mint) => spec_verify_vault_err(*tc_owner, *vault, program_id@) is None && mint@
                == spec_token_account_mint(vault.data@)->Ok_0,
            Err(e) => spec_verify_vault_err(*tc_owner, *vault, program_id@) == Some(e),
        },
{
    let mint: [u8; 32] = match unpack_token_account_mint(vault.data.as_slice()) {
        Ok(m) => m,
        Err(e) => { return Err(e) },
    };
    let owners: TcOwners = match TcOwners::unpack(tc_owner.data.as_slice()) {
        Ok(t) => t,
        Err(e) => { return Err(e) },
    };
    let authority: [u8; 32] = match create_program_address(
        &tc_owner.key,
        owners.bump_seed,
        program_id,
    ) {
        Some(a) => a,
        None => { return Err(BridgeError::InvalidSeeds) },
    };
    let expected: [u8; 32] = associated_token_address(&authority, &mint);
    if !bytes32_eq(&expected, &vault.key) {
        return Err(BridgeError::IncorrectProgramId);
    }
    Ok(mint)
}

/// Validate a deposit and compute its effects: the caller must sign, the
/// quorum config must belong to this program, the vault must be owned by
/// the token program and match its derived binding; then the stated amount
/// moves from the depositor's token account into the vault.
pub fn process_deposit(
    accounts: &Vec<AccountView>,
    amount: u64,
    tc_address: [u8; 20],
    program_id: &[u8; 32],
) -> (r: Result<DepositEffects, BridgeError>)
    ensures
        match r {
            Ok(eff) => spec_deposit_err(accounts@, program_id@) is None
                && spec_deposit_effects_ok(eff, accounts@, amount, tc_address@),
            Err(e) => spec_deposit_err(accounts@, program_id@) == Some(e),
        },
{
    if accounts.len() < 4 {
        return Err(BridgeError::NotEnoughAccountKeys);
    }
    if !accounts[3].is_signer {
        return Err(BridgeError::MissingRequiredSignature);
    }
    if accounts.len() < 5 {
        return Err(BridgeError::NotEnoughAccountKeys);
    }
    if !bytes32_eq(&accounts[2].owner, program_id) {
        return Err(BridgeError::IncorrectProgramId);
    }
    let token_program: [u8; 32] = spl_token_id();
    if !bytes32_eq(&accounts[1].owner, &token_program) {
        return Err(BridgeError::IncorrectProgramId);
    }
    let mint: [u8; 32] = match verify_vault_token_account(&accounts[2], &accounts[1], program_id) {
        Ok(m) => m,
        Err(e) => { return Err(e) },
    };
    Ok(
        DepositEffects {
            transfer: TransferAction { source: 0, destination: 1, authority: 3, amount },
            receipt: DepositReceipt {
                proxy_key: accounts[2].key,
                tc_address,
                token_mint: mint,
                amount,
            },
        },
    )
}

/// The destination account identifiers of a withdrawal: the keys of the
/// `n` accounts following the six fixed roles, in order.
pub open spec fn spec_withdraw_dest_keys(accounts: Seq<AccountView>, n: int) -> Seq<Seq<u8>> {
    Seq::new(n as nat, |i: int| accounts[6 + i].key@)
}

/// The hash every quorum signature must open to: keccak-256 of the
/// canonical message over the amounts, the destination identifiers and the
/// consumed counter value.
pub open spec fn spec_withdraw_msg_hash(
    accounts: Seq<AccountView>,
    w: WithdrawRequestView,
    nonce: u64,
) -> Seq<u8> {
    keccak_of(
        spec_sign_data_json(
            SignDataView {
                amounts: w.amounts,
                accounts: spec_withdraw_dest_keys(accounts, w.amounts.len() as int),
                nonce,
            },
        ),
    )
}

/// A 65-byte signature opens to the given beacon key: the key recovered
/// from the message hash, the final recovery-id byte and the 64-byte (r,s)
/// part equals it exactly.
pub open spec fn spec_sig_matches(msg_hash: Seq<u8>, signature: Seq<u8>, beacon: Seq<u8>) -> bool {
    secp_recover_of(msg_hash, signature[64], signature.subrange(0, 64)) == Some(beacon)
}

/// Every supplied signature opens, positionally, to its beacon key: for
/// each index below the signature count, the index is within the beacon
/// list and the signature recovers to that beacon.
pub open spec fn spec_all_signatures_match(
    msg_hash: Seq<u8>,
    signatures: Seq<Seq<u8>>,
    beacons: Seq<Seq<u8>>,
) -> bool {
    forall|i: int|
        0 <= i < signatures.len() ==> i < beacons.len() && spec_sig_matches(
            msg_hash,
            #[trigger] signatures[i],
            beacons[i],
        )
}

/// The native-asset cleanup check at index `i`: the destination must differ
/// from the vault, and a refund account must remain in the account list.
pub open spec fn spec_native_step_err(accounts: Seq<AccountView>, n: int, i: int) -> Option<
    BridgeError,
> {
    if accounts[6 + i].key@ == accounts[0].key@ {
        Some(BridgeError::InvalidTransferTokenData)
    } else if accounts.len() < 7 + n + i {
        Some(BridgeError::NotEnoughAccountKeys)
    } else {
        None
    }
}

/// The first failing native-asset cleanup check at or after index `i`.
pub open spec fn spec_native_loop_err(accounts: Seq<AccountView>, n: int, i: int) -> Option<
    BridgeError,
>
    decreases n - i,
{
    if i < 0 || i >= n {
        None
    } else {
        match spec_native_step_err(accounts, n, i) {
            Some(e) => Some(e),
            None => spec_native_loop_err(accounts, n, i + 1),
        }
    }
}

proof fn lemma_native_loop_prefix(accounts: Seq<AccountView>, n: int, i: int)
    requires
        0 <= i <= n,
        forall|j: int| 0 <= j < i ==> spec_native_step_err(accounts, n, j) is None,
    ensures
        spec_native_loop_err(accounts, n, 0) == spec_native_loop_err(accounts, n, i),
    decreases i,
{
    if i > 0 {
        lemma_native_loop_prefix(accounts, n, i - 1);
    }
}

/// The outcome of consuming the replay counter: the presented record must
/// stand at the derived counter address, be writable, decode, and not yet
/// have exhausted its range. `None` means the counter can be consumed.
pub open spec fn spec_process_nonce_err(pda: AccountView, program_id: Seq<u8>) -> Option<
    BridgeError,
> {
    match find_address_of(1, program_id) {
        None => Some(BridgeError::InvalidSeeds),
        Some(p) => if p.0 != pda.key@ {
            Some(BridgeError::InvalidPDAAccount)
        } else if !pda.is_writable {
            Some(BridgeError::InvalidPDAAccount)
        } else {
            match spec_unpack_nonces(pda.data@) {
                Err(e) => Some(e),
                Ok(rec) => if rec.nonce == u64::MAX {
                    Some(BridgeError::CounterOverflow)
                } else {
                    None
                },
            }
        },
    }
}

/// Consume the replay counter: check the record's derived address and
/// writability, decode it, and hand back the current record so the caller
/// can bind its value into the canonical message and write back the
/// advanced value.
pub fn process_nonce(pda_account: &AccountView, program_id: &[u8; 32]) -> (r: Result<
    Nonces,
    BridgeError,
>)
    ensures
        match r {
            Ok(rec) => spec_process_nonce_err(*pda_account, program_id@) is None
                && spec_unpack_nonces(pda_account.data@) == Ok::<Nonces, BridgeError>(rec),
            Err(e) => spec_process_nonce_err(*pda_account, program_id@) == Some(e),
        },
{
    let pda: ([u8; 32], u8) = match find_derived_address(1, program_id) {
        Some(p) => p,
        None => { return Err(BridgeError::InvalidSeeds) },
    };
    if !bytes32_eq(&pda.0, &pda_account.key) {
        return Err(BridgeError::InvalidPDAAccount);
    }
    if !pda_account.is_writable {
        return Err(BridgeError::InvalidPDAAccount);
    }
    let rec: Nonces = match Nonces::unpack_from_slice(pda_account.data.as_slice()) {
        Ok(x) => x,
        Err(e) => { return Err(e) },
    };
    if rec.nonce == u64::MAX {
        return Err(BridgeError::CounterOverflow);
    }
    Ok(rec)
}

/// The first error of the withdraw state machine, or `None` when every
/// check passes. Account roles: 0 vault source, 1 derived custody
/// authority, 2 replay-counter record, 3 quorum config, 4 token program,
/// 5 authority (signer), then `n` destination accounts, then one refund
/// account per native-asset close.
pub open spec fn spec_withdraw_err(
    accounts: Seq<AccountView>,
    w: WithdrawRequestView,
    program_id: Seq<u8>,
) -> Option<BridgeError> {
    if accounts.len() < 6 {
        Some(BridgeError::NotEnoughAccountKeys)
    } else if !accounts[5].is_signer {
        Some(BridgeError::InvalidAuthorityAccount)
    } else {
        match spec_unpack_tc_owners_unchecked(accounts[3].data@) {
            Err(e) => Some(e),
            Ok(t) => if !t.is_initialized {
                Some(BridgeError::BeaconsUnInitialized)
            } else if w.amounts.len() == 0 {
                Some(BridgeError::EmptyWithdrawList)
            } else if accounts.len() < 6 + w.amounts.len() {
                Some(BridgeError::NotEnoughAccountKeys)
            } else if accounts[3].owner@ != program_id {
                Some(BridgeError::IncorrectProgramId)
            } else if spec_verify_vault_err(accounts[3], accounts[0], program_id) is Some {
                spec_verify_vault_err(accounts[3], accounts[0], program_id)
            } else if w.signatures.len() <= t.beacons.len() * 2 / 3 {
                Some(BridgeError::InvalidNumberOfSignature)
            } else {
                match spec_process_nonce_err(accounts[2], program_id) {
                    Some(e) => Some(e),
                    None => {
                        let rec = spec_unpack_nonces(accounts[2].data@)->Ok_0;
                        let msg = spec_withdraw_msg_hash(accounts, w, rec.nonce);
                        if !spec_all_signatures_match(msg, w.signatures, t.beacons) {
                            Some(BridgeError::InvalidBeaconSignature)
                        } else if spec_token_account_mint(accounts[0].data@)->Ok_0
                            == spec_native_mint_id() {
                            spec_native_loop_err(accounts, w.amounts.len() as int, 0)
                        } else {
                            None
                        }
                    },
                }
            },
        }
    }
}

/// The effects a successful withdrawal must carry: the counter record
/// rewritten with the consumed value plus one, the custody authority's
/// signer seeds, one transfer per amount to the destinations in order, and,
/// exactly when the vault's mint is the native wrapped asset, one close of
/// each destination into the refund accounts that follow.
pub open spec fn spec_withdraw_effects_ok(
    eff: WithdrawEffects,
    accounts: Seq<AccountView>,
    w: WithdrawRequestView,
) -> bool {
    let t = spec_unpack_tc_owners_unchecked(accounts[3].data@)->Ok_0;
    let rec = spec_unpack_nonces(accounts[2].data@)->Ok_0;
    let n = w.amounts.len() as int;
    let native = spec_token_account_mint(accounts[0].data@)->Ok_0 == spec_native_mint_id();
    &&& eff.counter_account == 2
    &&& eff.consumed_counter == rec.nonce
    &&& eff.counter_data@ == spec_pack_nonces(
        Nonces { is_initialized: rec.is_initialized, nonce: (rec.nonce + 1) as u64 },
    )
    &&& eff.authority_seed_key@ == accounts[3].key@
    &&& eff.authority_bump == t.bump_seed
    &&& eff.transfers@.len() == n
    &&& forall|i: int|
        0 <= i < n ==> (#[trigger] eff.transfers@[i]) == TransferAction {
            source: 0,
            destination: (6 + i) as usize,
            authority: 1,
            amount: w.amounts[i],
        }
    &&& eff.closes@.len() == if native {
        n
    } else {
        0
    }
    &&& forall|i: int|
        0 <= i < eff.closes@.len() ==> (#[trigger] eff.closes@[i]) == CloseAction {
            account: (6 + i) as usize,
            destination: (6 + n + i) as usize,
            authority: 1,
        }
}

/// Check every supplied signature positionally: signature `i` must recover,
/// over the given message hash, to exactly `beacons[i]`; an index beyond the
/// beacon list fails.
fn verify_signatures(
    msg_hash: &[u8; 32],
    signatures: &Vec<[u8; 65]>,
    beacons: &Vec<[u8; 64]>,
    Ghost(sigs_view): Ghost<Seq<Seq<u8>>>,
    Ghost(beacons_view): Ghost<Seq<Seq<u8>>>,
) -> (r: bool)
    requires
        sigs_view == signatures@.map_values(|s: [u8; 65]| s@),
        beacons_view == beacons@.map_values(|b: [u8; 64]| b@),
    ensures
        r == spec_all_signatures_match(msg_hash@, sigs_view, beacons_view),
{
    let mut i: usize = 0;
    while i < signatures.len()
        invariant
            0 <= i <= signatures@.len(),
            i <= beacons@.len(),
            sigs_view == signatures@.map_values(|s: [u8; 65]| s@),
            beacons_view == beacons@.map_values(|b: [u8; 64]| b@),
            sigs_view.len() == signatures@.len(),
            beacons_view.len() == beacons@.len(),
            forall|j: int|
                0 <= j < i ==> spec_sig_matches(
                    msg_hash@,
                    #[trigger] sigs_view[j],
                    beacons_view[j],
                ),
        decreases signatures@.len() - i,
    {
        let ghost ii = i as int;
        if i >= beacons.len() {
            proof {
                assert(sigs_view[ii] == signatures@[ii]@);
                assert(!(ii < beacons_view.len() && spec_sig_matches(
                    msg_hash@,
                    sigs_view[ii],
                    beacons_view[ii],
                )));
                assert(exists|q: int|
                    0 <= q < sigs_view.len() && !(q < beacons_view.len() && spec_sig_matches(
                        msg_hash@,
                        #[trigger] sigs_view[q],
                        beacons_view[q],
                    )));
            }
            return false;
        }
        let sig: [u8; 65] = signatures[i];
        let sig64: [u8; 64] = to_array_64(slice_subrange(sig.as_slice(), 0, 64));
        let rid: u8 = sig[64];
        let beacon: [u8; 64] = beacons[i];
        proof {
            assert(sigs_view[ii] == sig@);
            assert(sig@.subrange(0, 64) == sig64@);
            assert(beacons_view[ii] == beacon@);
        }
        match secp256k1_recover_key(msg_hash, rid, &sig64) {
            None => {
                proof {
                    assert(!spec_sig_matches(msg_hash@, sigs_view[ii], beacons_view[ii]));
                    assert(exists|q: int|
                        0 <= q < sigs_view.len() && !(q < beacons_view.len()
                            && spec_sig_matches(
                            msg_hash@,
                            #[trigger] sigs_view[q],
                            beacons_view[q],
                        )));
                }
                return false;
            },
            Some(recovered) => {
                if !bytes64_eq(&recovered, &beacon) {
                    proof {
                        assert(secp_recover_of(msg_hash@, sig@[64], sig@.subrange(0, 64))
                            == Some(recovered@));
                        assert(!spec_sig_matches(msg_hash@, sigs_view[ii], beacons_view[ii]));
                        assert(exists|q: int|
                            0 <= q < sigs_view.len() && !(q < beacons_view.len()
                                && spec_sig_matches(
                                msg_hash@,
                                #[trigger] sigs_view[q],
                                beacons_view[q],
                            )));
                    }
                    return false;
                }
            },
        }
        i = i + 1;
    }
    true
}

/// Build the transfer list of a withdrawal and, for the native wrapped
/// asset, the close list with its per-index checks: no destination may be
/// the vault itself, and one refund account must remain for each close.
#[verifier::loop_isolation(false)]
fn build_withdraw_actions(
    accounts: &Vec<AccountView>,
    amounts: &Vec<u64>,
    is_native: bool,
) -> (r: Result<(Vec<TransferAction>, Vec<CloseAction>), BridgeError>)
    requires
        accounts@.len() >= 6 + amounts@.len(),
    ensures
        match r {
            Ok(acts) => {
                let n = amounts@.len() as int;
                &&& (is_native ==> spec_native_loop_err(accounts@, n, 0) is None)
                &&& acts.0@.len() == n
                &&& forall|j: int|
                    0 <= j < n ==> (#[trigger] acts.0@[j]) == (TransferAction {
                        source: 0,
                        destination: (6 + j) as usize,
                        authority: 1,
                        amount: amounts@[j],
                    })
                &&& acts.1@.len() == (if is_native {
                    n
                } else {
                    0
                })
                &&& forall|j: int|
                    0 <= j < acts.1@.len() ==> (#[trigger] acts.1@[j]) == (CloseAction {
                        account: (6 + j) as usize,
                        destination: (6 + n + j) as usize,
                        authority: 1,
                    })
            },
            Err(e) => is_native && spec_native_loop_err(accounts@, amounts@.len() as int, 0)
                == Some(e),
        },
{
    let n: usize = amounts.len();
    let total: usize = accounts.len();
    proof {
        assert(6 + n <= total);
    }
    let mut transfers: Vec<TransferAction> = Vec::new();
    let mut closes: Vec<CloseAction> = Vec::new();
    let mut i: usize = 0;
    while i < n
        invariant
            0 <= i <= n,
            transfers@.len() == i,
            forall|j: int|
                0 <= j < i ==> (#[trigger] transfers@[j]) == (TransferAction {
                    source: 0,
                    destination: (6 + j) as usize,
                    authority: 1,
                    amount: amounts@[j],
                }),
            closes@.len() == if is_native {
                i as int
            } else {
                0
            },
            forall|j: int|
                0 <= j < closes@.len() ==> (#[trigger] closes@[j]) == (CloseAction {
                    account: (6 + j) as usize,
                    destination: (6 + n + j) as usize,
                    authority: 1,
                }),
            is_native ==> spec_native_loop_err(accounts@, n as int, 0)
                == spec_native_loop_err(accounts@, n as int, i as int),
        decreases n - i,
    {
        transfers.push(
            TransferAction {
                source: 0,
                destination: 6 + i,
                authority: 1,
                amount: amounts[i],
            },
        );
        if is_native {
            if bytes32_eq(&accounts[0].key, &accounts[6 + i].key) {
                return Err(BridgeError::InvalidTransferTokenData);
            }
            if accounts.len() - 6 - n < i + 1 {
                return Err(BridgeError::NotEnoughAccountKeys);
            }
            closes.push(CloseAction { account: 6 + i, destination: 6 + n + i, authority: 1 });
        }
        i = i + 1;
    }
    Ok((transfers, closes))
}

/// Copy a vector of amounts.
pub fn copy_u64_vec(v: &Vec<u64>) -> (r: Vec<u64>)
    ensures
        r@ == v@,
{
    let mut r: Vec<u64> = Vec::new();
    let mut i: usize = 0;
    while i < v.len()
        invariant
            0 <= i <= v@.len(),
            r@ == v@.take(i as int),
        decreases v@.len() - i,
    {
        r.push(v[i]);
        proof {
            assert(r@ =~= v@.take(i + 1));
        }
        i = i + 1;
    }
    proof {
        assert(v@.take(v@.len() as int) =~= v@);
    }
    r
}

/// Validate a withdrawal and compute its effects, advancing the replay
/// counter: authority signature, initialized quorum config, non-empty
/// request, vault binding, strict quorum threshold, counter consumption,
/// and positional signature recovery over the canonical message all
/// happen here; the resulting transfers and native-asset closes are
/// returned for the host runtime to perform atomically.
#[verifier::loop_isolation(false)]
pub fn process_withdraw(
    accounts: &Vec<AccountView>,
    withdraw_info: WithdrawRequest,
    program_id: &[u8; 32],
) -> (r: Result<WithdrawEffects, BridgeError>)
    ensures
        match r {
            Ok(eff) => spec_withdraw_err(accounts@, withdraw_info@, program_id@) is None
                && spec_withdraw_effects_ok(eff, accounts@, withdraw_info@),
            Err(e) => spec_withdraw_err(accounts@, withdraw_info@, program_id@) == Some(e),
        },
{
    if accounts.len() < 6 {
        return Err(BridgeError::NotEnoughAccountKeys);
    }
    if !accounts[5].is_signer {
        return Err(BridgeError::InvalidAuthorityAccount);
    }
    let owners: TcOwners = match TcOwners::unpack_unchecked(accounts[3].data.as_slice()) {
        Ok(t) => t,
        Err(e) => { return Err(e) },
    };
    if !owners.is_initialized {
        return Err(BridgeError::BeaconsUnInitialized);
    }
    let n: usize = withdraw_info.amounts.len();
    if n == 0 {
        return Err(BridgeError::EmptyWithdrawList);
    }
    if accounts.len() - 6 < n {
        return Err(BridgeError::NotEnoughAccountKeys);
    }
    if !bytes32_eq(&accounts[3].owner, program_id) {
        return Err(BridgeError::IncorrectProgramId);
    }
    let mint: [u8; 32] = match verify_vault_token_account(&accounts[3], &accounts[0], program_id) {
        Ok(m) => m,
        Err(e) => { return Err(e) },
    };
    if withdraw_info.signatures.len() <= owners.beacons.len() * 2 / 3 {
        return Err(BridgeError::InvalidNumberOfSignature);
    }
    let nonce_rec: Nonces = match process_nonce(&accounts[2], program_id) {
        Ok(rec) => rec,
        Err(e) => { return Err(e) },
    };
    let current: u64 = nonce_rec.nonce;
    let mut dest_keys: Vec<[u8; 32]> = Vec::new();
    let mut i: usize = 0;
    while i < n
        invariant
            0 <= i <= n,
            6 + n <= usize::MAX,
            accounts@.len() >= 6 + n,
            dest_keys@.len() == i,
            forall|j: int| 0 <= j < i ==> (#[trigger] dest_keys@[j])@ == accounts@[6 + j].key@,
        decreases n - i,
    {
        dest_keys.push(accounts[6 + i].key);
        i = i + 1;
    }
    let amounts_copy: Vec<u64> = copy_u64_vec(&withdraw_info.amounts);
    let sign_data = SignData { amounts: amounts_copy, accounts: dest_keys, nonce: current };
    proof {
        assert(sign_data@.accounts =~~= spec_withdraw_dest_keys(accounts@, n as int));
    }
    let json: Vec<u8> = encode_sign_data(&sign_data);
    let msg_hash: [u8; 32] = keccak_hash(json.as_slice());
    proof {
        assert(msg_hash@ == spec_withdraw_msg_hash(accounts@, withdraw_info@, current));
    }
    let sigs_ok: bool = verify_signatures(
        &msg_hash,
        &withdraw_info.signatures,
        &owners.beacons,
        Ghost(withdraw_info@.signatures),
        Ghost(owners@.beacons),
    );
    if !sigs_ok {
        return Err(BridgeError::InvalidBeaconSignature);
    }
    let nm: [u8; 32] = native_mint_id();
    let is_native: bool = bytes32_eq(&mint, &nm);
    let (transfers, closes): (Vec<TransferAction>, Vec<CloseAction>) = match build_withdraw_actions(
        accounts,
        &withdraw_info.amounts,
        is_native,
    ) {
        Ok(acts) => acts,
        Err(e) => { return Err(e) },
    };
    let mut counter_data: Vec<u8> = Vec::new();
    counter_data.push(0);
    counter_data.push(0);
    counter_data.push(0);
    counter_data.push(0);
    counter_data.push(0);
    counter_data.push(0);
    counter_data.push(0);
    counter_data.push(0);
    counter_data.push(0);
    let new_rec = Nonces { is_initialized: nonce_rec.is_initialized, nonce: current + 1 };
    new_rec.pack_into_slice(&mut counter_data);
    proof {
        assert(counter_data@.len() == 9);
        assert(counter_data@ =~= counter_data@.subrange(0, 9));
        assert(counter_data@ == spec_pack_nonces(new_rec));
    }
    Ok(
        WithdrawEffects {
            counter_account: 2,
            counter_data,
            consumed_counter: current,
            authority_seed_key: accounts[3].key,
            authority_bump: owners.bump_seed,
            transfers,
            closes,
        },
    )
}


/// The first error of the bootstrap chain, or `None` when every check
/// passes. Account roles: 0 quorum-config target, 1 counter-record target,
/// 2 authority (signer), 3 storage-allocation facility. Each target must be
/// empty and stand at its derived address.
pub open spec fn spec_init_err(
    accounts: Seq<AccountView>,
    beacons: Seq<Seq<u8>>,
    program_id: Seq<u8>,
) -> Option<BridgeError> {
    if accounts.len() < 4 {
        Some(BridgeError::NotEnoughAccountKeys)
    } else if !accounts[2].is_signer {
        Some(BridgeError::InvalidAuthorityAccount)
    } else {
        match find_address_of(0, program_id) {
            None => Some(BridgeError::InvalidSeeds),
            Some(p0) => if accounts[0].data@.len() != 0 || accounts[0].key@ != p0.0 {
                Some(BridgeError::PDAAccountCreated)
            } else if beacons.len() > 20 {
                Some(BridgeError::InvalidAccountData)
            } else {
                match find_address_of(1, program_id) {
                    None => Some(BridgeError::InvalidSeeds),
                    Some(p1) => if accounts[1].data@.len() != 0 || accounts[1].key@ != p1.0 {
                        Some(BridgeError::PDAAccountCreated)
                    } else {
                        None
                    },
                }
            },
        }
    }
}

/// The effects a successful bootstrap must carry: allocate the two records
/// at their derived addresses, funded by the authority, and write the
/// quorum config (initialized, with the derived bump and the supplied
/// beacons) and the counter record (initialized, counter zero).
pub open spec fn spec_init_effects_ok(
    eff: InitOwnersEffects,
    beacons: Seq<Seq<u8>>,
    program_id: Seq<u8>,
) -> bool {
    let b0 = find_address_of(0, program_id)->Some_0.1;
    let b1 = find_address_of(1, program_id)->Some_0.1;
    &&& eff.create_owners == (CreateAccountAction {
        target: 0,
        funder: 2,
        space: 1283,
        seed: 0,
        bump: b0,
    })
    &&& eff.owners_data@ == spec_pack_tc_owners(
        TcOwnersView { is_initialized: true, bump_seed: b0, beacons },
    )
    &&& eff.create_counter == (CreateAccountAction {
        target: 1,
        funder: 2,
        space: 9,
        seed: 1,
        bump: b1,
    })
    &&& eff.counter_data@ == spec_pack_nonces(Nonces { is_initialized: true, nonce: 0 })
}

/// Validate a bootstrap and compute its effects: the caller must sign, both
/// derived record addresses must be empty and match, and the supplied
/// beacon list must fit the fixed record capacity; the two records are then
/// allocated and written with their initial contents.
#[verifier::loop_isolation(false)]
pub fn process_init_beacon(
    accounts: &Vec<AccountView>,
    init_beacon_info: OwnerInit,
    program_id: &[u8; 32],
) -> (r: Result<InitOwnersEffects, BridgeError>)
    ensures
        match r {
            Ok(eff) => spec_init_err(accounts@, init_beacon_info@.beacons, program_id@) is None
                && spec_init_effects_ok(eff, init_beacon_info@.beacons, program_id@),
            Err(e) => spec_init_err(accounts@, init_beacon_info@.beacons, program_id@) == Some(
                e,
            ),
        },
{
    if accounts.len() < 4 {
        return Err(BridgeError::NotEnoughAccountKeys);
    }
    if !accounts[2].is_signer {
        return Err(BridgeError::InvalidAuthorityAccount);
    }
    let p0: ([u8; 32], u8) = match find_derived_address(0, program_id) {
        Some(p) => p,
        None => { return Err(BridgeError::InvalidSeeds) },
    };
    if accounts[0].data.len() != 0 || !bytes32_eq(&accounts[0].key, &p0.0) {
        return Err(BridgeError::PDAAccountCreated);
    }
    if init_beacon_info.beacons.len() > 20 {
        return Err(BridgeError::InvalidAccountData);
    }
    let p1: ([u8; 32], u8) = match find_derived_address(1, program_id) {
        Some(p) => p,
        None => { return Err(BridgeError::InvalidSeeds) },
    };
    if accounts[1].data.len() != 0 || !bytes32_eq(&accounts[1].key, &p1.0) {
        return Err(BridgeError::PDAAccountCreated);
    }
    let owners = TcOwners {
        is_initialized: true,
        bump_seed: p0.1,
        beacons: init_beacon_info.beacons,
    };
    let mut owners_data: Vec<u8> = Vec::new();
    let mut i: usize = 0;
    while i < 1283
        invariant
            0 <= i <= 1283,
            owners_data@.len() == i,
        decreases 1283 - i,
    {
        owners_data.push(0);
        i = i + 1;
    }
    proof {
        assert forall|j: int| 0 <= j < owners@.beacons.len() implies (#[trigger] owners@.beacons[
            j
        ]).len() == 64 by {
            assert(owners@.beacons[j] == owners.beacons@[j]@);
        }
        assert(owners@.wf());
    }
    owners.pack_into_slice(&mut owners_data);
    let counter = Nonces { is_initialized: true, nonce: 0 };
    let mut counter_data: Vec<u8> = Vec::new();
    counter_data.push(0);
    counter_data.push(0);
    counter_data.push(0);
    counter_data.push(0);
    counter_data.push(0);
    counter_data.push(0);
    counter_data.push(0);
    counter_data.push(0);
    counter_data.push(0);
    counter.pack_into_slice(&mut counter_data);
    proof {
        assert(owners_data@ =~= owners_data@.subrange(0, 1283));
        assert(owners@ == (TcOwnersView {
            is_initialized: true,
            bump_seed: p0.1,
            beacons: init_beacon_info@.beacons,
        }));
        assert(counter_data@ =~= counter_data@.subrange(0, 9));
    }
    Ok(
        InitOwnersEffects {
            create_owners: CreateAccountAction {
                target: 0,
                funder: 2,
                space: 1283,
                seed: 0,
                bump: p0.1,
            },
            owners_data,
            create_counter: CreateAccountAction {
                target: 1,
                funder: 2,
                space: 9,
                seed: 1,
                bump: p1.1,
            },
            counter_data,
        },
    )
}

/// Decode an instruction buffer and route it to its handler, returning the
/// effects to apply or the first error of the selected chain.
pub fn process_instruction(
    program_id: &[u8; 32],
    accounts: &Vec<AccountView>,
    instruction_data: &[u8],
) -> (r: Result<BridgeEffects, BridgeError>)
    ensures
        match spec_unpack_instruction(instruction_data@) {
            Err(e) => r == Err::<BridgeEffects, BridgeError>(e),
            Ok(ins) => match ins {
                BridgeInstructionView::Deposit { amount, tc_address } => (match r {
                    Ok(BridgeEffects::Deposit(eff)) => spec_deposit_err(accounts@, program_id@)
                        is None && spec_deposit_effects_ok(eff, accounts@, amount, tc_address),
                    Err(e) => spec_deposit_err(accounts@, program_id@) == Some(e),
                    _ => false,
                }),
                BridgeInstructionView::Withdraw { withdraw_info } => (match r {
                    Ok(BridgeEffects::Withdraw(eff)) => spec_withdraw_err(
                        accounts@,
                        withdraw_info,
                        program_id@,
                    ) is None && spec_withdraw_effects_ok(eff, accounts@, withdraw_info),
                    Err(e) => spec_withdraw_err(accounts@, withdraw_info, program_id@) == Some(
                        e,
                    ),
                    _ => false,
                }),
                BridgeInstructionView::InitOwners { init_beacon_info } => (match r {
                    Ok(BridgeEffects::InitOwners(eff)) => spec_init_err(
                        accounts@,
                        init_beacon_info.beacons,
                        program_id@,
                    ) is None && spec_init_effects_ok(
                        eff,
                        init_beacon_info.beacons,
                        program_id@,
                    ),
                    Err(e) => spec_init_err(accounts@, init_beacon_info.beacons, program_id@)
                        == Some(e),
                    _ => false,
                }),
            },
        },
{
    let instruction: BridgeInstruction = match BridgeInstruction::unpack(instruction_data) {
        Ok(ins) => ins,
        Err(e) => { return Err(e) },
    };
    match instruction {
        BridgeInstruction::Deposit { amount, tc_address } => {
            match process_deposit(accounts, amount, tc_address, program_id) {
                Ok(eff) => Ok(BridgeEffects::Deposit(eff)),
                Err(e) => Err(e),
            }
        },
        BridgeInstruction::Withdraw { withdraw_info } => {
            match process_withdraw(accounts, withdraw_info, program_id) {
                Ok(eff) => Ok(BridgeEffects::Withdraw(eff)),
                Err(e) => Err(e),
            }
        },
        BridgeInstruction::InitOwners { init_beacon_info } => {
            match process_init_beacon(accounts, init_beacon_info, program_id) {
                Ok(eff) => Ok(BridgeEffects::InitOwners(eff)),
                Err(e) => Err(e),
            }
        },
    }
}

} // verus!
