use vstd::prelude::*;
use solana_program::program_pack::Pack;
use crate::error::BridgeError;

verus! {

/// The keccak-256 digest of a byte string, as the host chain computes it.
pub uninterp spec fn keccak_of(data: Seq<u8>) -> Seq<u8>;

/// The public key recovered from a 32-byte message hash, a recovery id and a
/// 64-byte (r,s) signature, or nothing when recovery fails; a function of
/// its arguments alone.
pub uninterp spec fn secp_recover_of(hash: Seq<u8>, recovery_id: u8, signature: Seq<u8>) -> Option<
    Seq<u8>,
>;

/// The program address derived from the seed pair (`seed`, `[bump]`) under
/// `program_id`, or nothing when the derivation lands on the curve.
pub uninterp spec fn program_address_of(seed: Seq<u8>, bump: u8, program_id: Seq<u8>) -> Option<
    Seq<u8>,
>;

/// The first valid derived address for the single-byte seed `[seed]` under
/// `program_id`, with its bump, or nothing in the statistically improbable
/// case that no bump works.
pub uninterp spec fn find_address_of(seed: u8, program_id: Seq<u8>) -> Option<(Seq<u8>, u8)>;

/// The canonical associated token account address for a wallet and a mint.
pub uninterp spec fn associated_token_address_of(wallet: Seq<u8>, mint: Seq<u8>) -> Seq<u8>;

/// The token program's identity (`TokenkegQfeZyiNwAJbNbGKPFXCWuBvf9Ss623VQ5DA`).
pub open spec fn spec_spl_token_id() -> Seq<u8> {
    seq![
        6u8, 221u8, 246u8, 225u8, 215u8, 101u8, 161u8, 147u8, 217u8, 203u8, 225u8, 70u8, 206u8,
        235u8, 121u8, 172u8, 28u8, 180u8, 133u8, 237u8, 95u8, 91u8, 55u8, 145u8, 58u8, 140u8,
        245u8, 133u8, 126u8, 255u8, 0u8, 169u8,
    ]
}

/// The native wrapped asset's mint (`So11111111111111111111111111111111111111112`).
pub open spec fn spec_native_mint_id() -> Seq<u8> {
    seq![
        6u8, 155u8, 136u8, 87u8, 254u8, 171u8, 129u8, 132u8, 251u8, 104u8, 127u8, 99u8, 70u8,
        24u8, 192u8, 53u8, 218u8, 196u8, 57u8, 220u8, 26u8, 235u8, 59u8, 85u8, 152u8, 160u8,
        240u8, 0u8, 0u8, 0u8, 0u8, 1u8,
    ]
}

/// A 4-byte optional-field tag as the token account layout uses it: strictly
/// `[0,0,0,0]` (absent) or `[1,0,0,0]` (present).
pub open spec fn spec_coption_tag_ok(s: Seq<u8>) -> bool {
    &&& s.len() == 4
    &&& (s[0] == 0 || s[0] == 1)
    &&& s[1] == 0
    &&& s[2] == 0
    &&& s[3] == 0
}

/// Whether a byte string parses as a token account record: exactly 165
/// bytes, the three optional-field tags well-formed, and the state byte at
/// offset 108 one of the three known states.
pub open spec fn spec_token_account_parse_ok(d: Seq<u8>) -> bool {
    &&& d.len() == 165
    &&& spec_coption_tag_ok(d.subrange(72, 76))
    &&& d[108] <= 2
    &&& spec_coption_tag_ok(d.subrange(109, 113))
    &&& spec_coption_tag_ok(d.subrange(129, 133))
}

/// The mint field (first 32 bytes) of an initialized token account record,
/// or the exact error its loader reports.
pub open spec fn spec_token_account_mint(d: Seq<u8>) -> Result<Seq<u8>, BridgeError> {
    if !spec_token_account_parse_ok(d) {
        Err(BridgeError::InvalidAccountData)
    } else if d[108] == 0 {
        Err(BridgeError::UninitializedAccount)
    } else {
        Ok(d.subrange(0, 32))
    }
}

/// Relies on `solana_program::keccak::hash`: the keccak-256 digest of the
/// input bytes, 32 bytes long, a function of the input alone.
#[verifier::external_body]
pub(crate) fn keccak_hash(data: &[u8]) -> (r: [u8; 32])
    ensures
        r@ == keccak_of(data@),
{
    solana_program::keccak::hash(data).to_bytes()
}

/// Relies on `solana_program::secp256k1_recover::secp256k1_recover`: recovers
/// the 64-byte uncompressed public key from a 32-byte prehash, a recovery id
/// and a 64-byte signature; it fails exactly when the recovery id or the
/// signature is invalid, and depends on its arguments alone.
#[verifier::external_body]
pub(crate) fn secp256k1_recover_key(hash: &[u8; 32], recovery_id: u8, signature: &[u8; 64]) -> (r: Option<
    [u8; 64],
>)
    ensures
        match r {
            Some(k) => secp_recover_of(hash@, recovery_id, signature@) == Some(k@),
            None => secp_recover_of(hash@, recovery_id, signature@) is None,
        },
{
    match solana_program::secp256k1_recover::secp256k1_recover(
        hash.as_slice(),
        recovery_id,
        signature.as_slice(),
    ) {
        Ok(pk) => Some(pk.to_bytes()),
        Err(_) => None,
    }
}

/// Relies on `Pubkey::create_program_address` with the seed pair
/// (`seed`, `[bump]`): derives the program address off the curve, or fails;
/// deterministic in its arguments.
#[verifier::external_body]
pub(crate) fn create_program_address(seed: &[u8; 32], bump: u8, program_id: &[u8; 32]) -> (r: Option<
    [u8; 32],
>)
    ensures
        match r {
            Some(a) => program_address_of(seed@, bump, program_id@) == Some(a@),
            None => program_address_of(seed@, bump, program_id@) is None,
        },
{
    let pid = solana_program::pubkey::Pubkey::new_from_array(*program_id);
    match solana_program::pubkey::Pubkey::create_program_address(
        &[seed.as_slice(), &[bump]],
        &pid,
    ) {
        Ok(a) => Some(a.to_bytes()),
        Err(_) => None,
    }
}

/// Relies on `Pubkey::try_find_program_address` with the single one-byte
/// seed `[seed]`: the first valid derived address and its bump seed;
/// deterministic in its arguments.
#[verifier::external_body]
pub(crate) fn find_derived_address(seed: u8, program_id: &[u8; 32]) -> (r: Option<([u8; 32], u8)>)
    ensures
        match r {
            Some(p) => find_address_of(seed, program_id@) == Some((p.0@, p.1)),
            None => find_address_of(seed, program_id@) is None,
        },
{
    let pid = solana_program::pubkey::Pubkey::new_from_array(*program_id);
    match solana_program::pubkey::Pubkey::try_find_program_address(&[&[seed]], &pid) {
        Some((a, bump)) => Some((a.to_bytes(), bump)),
        None => None,
    }
}

/// Relies on `spl_associated_token_account::get_associated_token_address`:
/// the canonical associated token account for a wallet and a mint;
/// deterministic in its arguments.
#[verifier::external_body]
pub(crate) fn associated_token_address(wallet: &[u8; 32], mint: &[u8; 32]) -> (r: [u8; 32])
    ensures
        r@ == associated_token_address_of(wallet@, mint@),
{
    let w = spl_token::solana_program::pubkey::Pubkey::new_from_array(*wallet);
    let m = spl_token::solana_program::pubkey::Pubkey::new_from_array(*mint);
    spl_associated_token_account::get_associated_token_address(&w, &m).to_bytes()
}

/// Relies on `spl_token::state::Account::unpack`: loads a token account
/// record of exactly 165 bytes, reports `UninitializedAccount` when the
/// state byte is 0 and `InvalidAccountData` on any other malformation, and
/// otherwise yields the record whose mint is the first 32 bytes.
#[verifier::external_body]
pub(crate) fn unpack_token_account_mint(data: &[u8]) -> (r: Result<[u8; 32], BridgeError>)
    ensures
        match r {
            Ok(m) => spec_token_account_mint(data@) == Ok::<Seq<u8>, BridgeError>(m@),
            Err(e) => spec_token_account_mint(data@) == Err::<Seq<u8>, BridgeError>(e),
        },
{
    match spl_token::state::Account::unpack(data) {
        Ok(acc) => Ok(acc.mint.to_bytes()),
        Err(solana_program::program_error::ProgramError::UninitializedAccount) => Err(
            BridgeError::UninitializedAccount,
        ),
        Err(_) => Err(BridgeError::InvalidAccountData),
    }
}

/// Relies on `spl_token::id`: the token program's identity constant.
#[verifier::external_body]
pub(crate) fn spl_token_id() -> (r: [u8; 32])
    ensures
        r@ == spec_spl_token_id(),
{
    spl_token::id().to_bytes()
}

/// Relies on `spl_token::native_mint::id`: the native wrapped mint constant.
#[verifier::external_body]
pub(crate) fn native_mint_id() -> (r: [u8; 32])
    ensures
        r@ == spec_native_mint_id(),
{
    spl_token::native_mint::id().to_bytes()
}

} // verus!
