use vstd::prelude::*;
use vstd::bytes::{
    lemma_auto_spec_u64_to_from_le_bytes, spec_u64_from_le_bytes, spec_u64_to_le_bytes,
    u64_from_le_bytes, u64_to_le_bytes,
};
use vstd::slice::slice_subrange;
use crate::error::BridgeError;
use crate::util::to_array_64;

verus! {

/// Length in bytes of an uncompressed secp256k1 public key (no prefix byte).
pub const BEACON_KEY_LEN: usize = 64;

/// Max number of beacon addresses
pub const MAX_BEACON_ADDRESSES: usize = 20;

/// Persisted size of the replay-counter record: 1 (initialized) + 8 (counter).
pub const NONCES_LEN: usize = 9;

/// Persisted size of the quorum-config record:
/// 1 (initialized) + 1 (bump seed) + 1 (beacon count) + 64 * 20 (beacon slots).
pub const TC_OWNERS_LEN: usize = 1283;

/// The replay-nonce record: a monotonically advanced counter consumed by
/// withdrawals.
#[derive(Clone, Copy, Debug)]
pub struct Nonces {
    pub is_initialized: bool,
    pub nonce: u64,
}

/// The quorum configuration: the bump seed of the derived custody authority
/// and the ordered beacon public keys.
#[derive(Clone, Debug)]
pub struct TcOwners {
    pub is_initialized: bool,
    pub bump_seed: u8,
    pub beacons: Vec<[u8; 64]>,
}

/// Mathematical model of a quorum configuration.
pub struct TcOwnersView {
    pub is_initialized: bool,
    pub bump_seed: u8,
    pub beacons: Seq<Seq<u8>>,
}

impl View for TcOwners {
    type V = TcOwnersView;

    open spec fn view(&self) -> TcOwnersView {
        TcOwnersView {
            is_initialized: self.is_initialized,
            bump_seed: self.bump_seed,
            beacons: self.beacons@.map_values(|b: [u8; 64]| b@),
        }
    }
}

impl TcOwnersView {
    /// A configuration fits its fixed on-disk capacity: at most 20 beacons,
    /// each a 64-byte key.
    pub open spec fn wf(self) -> bool {
        &&& self.beacons.len() <= 20
        &&& forall|i: int|
            0 <= i < self.beacons.len() ==> (#[trigger] self.beacons[i]).len() == 64
    }
}

/// The caller-supplied beacon list carried by the bootstrap instruction.
#[derive(Clone, Debug)]
pub struct OwnerInit {
    pub beacons: Vec<[u8; 64]>,
}

/// A withdrawal request: amounts to pay out and the positional quorum
/// signatures over the canonical message, each 64-byte (r,s) plus a
/// 1-byte recovery id.
#[derive(Clone, Debug)]
pub struct WithdrawRequest {
    pub amounts: Vec<u64>,
    pub signatures: Vec<[u8; 65]>,
}

/// The payload whose canonical encoding the beacons sign: amounts,
/// destination account identifiers, and the counter value bound in.
#[derive(Clone, Debug)]
pub struct SignData {
    pub amounts: Vec<u64>,
    pub accounts: Vec<[u8; 32]>,
    pub nonce: u64,
}

/// Mathematical model of a withdrawal request.
pub struct WithdrawRequestView {
    pub amounts: Seq<u64>,
    pub signatures: Seq<Seq<u8>>,
}

impl View for WithdrawRequest {
    type V = WithdrawRequestView;

    open spec fn view(&self) -> WithdrawRequestView {
        WithdrawRequestView {
            amounts: self.amounts@,
            signatures: self.signatures@.map_values(|s: [u8; 65]| s@),
        }
    }
}

/// Mathematical model of the bootstrap beacon list.
pub struct OwnerInitView {
    pub beacons: Seq<Seq<u8>>,
}

impl View for OwnerInit {
    type V = OwnerInitView;

    open spec fn view(&self) -> OwnerInitView {
        OwnerInitView { beacons: self.beacons@.map_values(|b: [u8; 64]| b@) }
    }
}

/// Mathematical model of the signed payload.
pub struct SignDataView {
    pub amounts: Seq<u64>,
    pub accounts: Seq<Seq<u8>>,
    pub nonce: u64,
}

impl View for SignData {
    type V = SignDataView;

    open spec fn view(&self) -> SignDataView {
        SignDataView {
            amounts: self.amounts@,
            accounts: self.accounts@.map_values(|a: [u8; 32]| a@),
            nonce: self.nonce,
        }
    }
}

/// The byte that encodes a boolean in the persisted records.
pub open spec fn spec_bool_byte(b: bool) -> u8 {
    if b {
        1u8
    } else {
        0u8
    }
}

/// Exact encoding of the replay-counter record.
pub open spec fn spec_pack_nonces(n: Nonces) -> Seq<u8> {
    seq![spec_bool_byte(n.is_initialized)] + spec_u64_to_le_bytes(n.nonce)
}

/// Exact decoding of the replay-counter record: a 9-byte prefix, the first
/// byte strictly 0 or 1, trailing bytes ignored.
pub open spec fn spec_unpack_nonces(s: Seq<u8>) -> Result<Nonces, BridgeError> {
    if s.len() < 9 {
        Err(BridgeError::BorshIoError)
    } else if s[0] == 0 {
        Ok(Nonces { is_initialized: false, nonce: spec_u64_from_le_bytes(s.subrange(1, 9)) })
    } else if s[0] == 1 {
        Ok(Nonces { is_initialized: true, nonce: spec_u64_from_le_bytes(s.subrange(1, 9)) })
    } else {
        Err(BridgeError::BorshIoError)
    }
}

/// Exact encoding of the quorum-config record: three header bytes, then the
/// beacon keys flattened in order, with the unused tail of the 1280-byte
/// key area zero-filled.
pub open spec fn spec_pack_tc_owners(t: TcOwnersView) -> Seq<u8> {
    seq![spec_bool_byte(t.is_initialized), t.bump_seed, t.beacons.len() as u8] + Seq::new(
        1280,
        |i: int|
            if i < 64 * t.beacons.len() {
                t.beacons[i / 64][i % 64]
            } else {
                0u8
            },
    )
}

/// Exact decoding of the quorum-config record from a buffer of at least its
/// fixed length: only the first `count` 64-byte slots are read back.
pub open spec fn spec_unpack_tc_owners(s: Seq<u8>) -> Result<TcOwnersView, BridgeError> {
    if s.len() < 1283 {
        Err(BridgeError::InvalidAccountData)
    } else if s[0] != 0 && s[0] != 1 {
        Err(BridgeError::InvalidBoolValue)
    } else if s[2] > 20 {
        Err(BridgeError::InvalidAccountData)
    } else {
        Ok(
            TcOwnersView {
                is_initialized: s[0] == 1,
                bump_seed: s[1],
                beacons: Seq::new(
                    s[2] as nat,
                    |i: int| s.subrange(3 + 64 * i, 3 + 64 * i + 64),
                ),
            },
        )
    }
}

/// Decoding as the persisted-record loader performs it: the buffer must have
/// exactly the fixed length.
pub open spec fn spec_unpack_tc_owners_unchecked(s: Seq<u8>) -> Result<TcOwnersView, BridgeError> {
    if s.len() != 1283 {
        Err(BridgeError::InvalidAccountData)
    } else {
        spec_unpack_tc_owners(s)
    }
}

/// Decoding plus the initialization check.
pub open spec fn spec_unpack_tc_owners_checked(s: Seq<u8>) -> Result<TcOwnersView, BridgeError> {
    match spec_unpack_tc_owners_unchecked(s) {
        Ok(t) => if t.is_initialized {
            Ok(t)
        } else {
            Err(BridgeError::UninitializedAccount)
        },
        Err(e) => Err(e),
    }
}

pub fn pack_bool(boolean: bool) -> (dst: [u8; 1])
    ensures
        dst@ == seq![spec_bool_byte(boolean)],
{
    let b: u8 = if boolean {
        1
    } else {
        0
    };
    let dst: [u8; 1] = [b];
    proof {
        assert(dst@ =~= seq![spec_bool_byte(boolean)]);
    }
    dst
}

impl Nonces {
    /// Decode a replay-counter record from the leading bytes of `src`.
    pub fn unpack_from_slice(src: &[u8]) -> (r: Result<Nonces, BridgeError>)
        ensures
            r == spec_unpack_nonces(src@),
    {
        if src.len() < 9 {
            return Err(BridgeError::BorshIoError);
        }
        let tag: u8 = src[0];
        if tag > 1 {
            return Err(BridgeError::BorshIoError);
        }
        let nonce: u64 = u64_from_le_bytes(slice_subrange(src, 1, 9));
        Ok(Nonces { is_initialized: tag == 1, nonce })
    }

    /// Encode this record over the first 9 bytes of `dst`, leaving the rest
    /// of the buffer unchanged.
    pub fn pack_into_slice(&self, dst: &mut Vec<u8>)
        requires
            old(dst)@.len() >= 9,
        ensures
            final(dst)@.len() == old(dst)@.len(),
            final(dst)@.subrange(0, 9) == spec_pack_nonces(*self),
            final(dst)@.skip(9) == old(dst)@.skip(9),
    {
        let b: [u8; 1] = pack_bool(self.is_initialized);
        dst.set(0, b[0]);
        let bytes: Vec<u8> = u64_to_le_bytes(self.nonce);
        let mut i: usize = 0;
        while i < 8
            invariant
                0 <= i <= 8,
                bytes@.len() == 8,
                bytes@ == spec_u64_to_le_bytes(self.nonce),
                dst@.len() == old(dst)@.len() >= 9,
                dst@[0] == spec_bool_byte(self.is_initialized),
                forall|j: int| 1 <= j < 1 + i ==> #[trigger] dst@[j] == bytes@[j - 1],
                forall|j: int| 9 <= j < dst@.len() ==> #[trigger] dst@[j] == old(dst)@[j],
            decreases 8 - i,
        {
            dst.set(1 + i, bytes[i]);
            i = i + 1;
        }
        proof {
            assert(dst@.subrange(0, 9) =~= spec_pack_nonces(*self));
            assert(dst@.skip(9) =~= old(dst)@.skip(9));
        }
    }
}

/// Decoding a packed replay-counter record restores it exactly.
pub proof fn lemma_nonces_round_trip(n: Nonces)
    ensures
        spec_unpack_nonces(spec_pack_nonces(n)) == Ok::<Nonces, BridgeError>(n),
{
    lemma_auto_spec_u64_to_from_le_bytes();
    let s = spec_pack_nonces(n);
    assert(s.subrange(1, 9) =~= spec_u64_to_le_bytes(n.nonce));
}

impl TcOwners {
    /// Create a quorum configuration from the given parameters.
    pub fn new(params: TcOwners) -> (r: TcOwners)
        ensures
            r@ == params@,
    {
        let mut incognito_proxy = TcOwners::default();
        TcOwners::init(&mut incognito_proxy, params);
        incognito_proxy
    }

    /// Overwrite this configuration with the given parameters.
    pub fn init(&mut self, params: TcOwners)
        ensures
            final(self)@ == params@,
    {
        self.is_initialized = params.is_initialized;
        self.bump_seed = params.bump_seed;
        self.beacons = params.beacons;
    }

    /// Decode a quorum-config record from the leading bytes of `src`.
    pub fn unpack_from_slice(src: &[u8]) -> (r: Result<TcOwners, BridgeError>)
        ensures
            match r {
                Ok(t) => spec_unpack_tc_owners(src@) == Ok::<TcOwnersView, BridgeError>(t@),
                Err(e) => spec_unpack_tc_owners(src@) == Err::<TcOwnersView, BridgeError>(e),
            },
    {
        if src.len() < 1283 {
            return Err(BridgeError::InvalidAccountData);
        }
        let tag: u8 = src[0];
        if tag > 1 {
            return Err(BridgeError::InvalidBoolValue);
        }
        let bump_seed: u8 = src[1];
        let count: u8 = src[2];
        if count > 20 {
            return Err(BridgeError::InvalidAccountData);
        }
        let mut beacons: Vec<[u8; 64]> = Vec::new();
        let mut i: usize = 0;
        while i < count as usize
            invariant
                0 <= i <= count as int <= 20,
                src@.len() >= 1283,
                beacons@.len() == i,
                forall|j: int|
                    0 <= j < i ==> (#[trigger] beacons@[j])@ == src@.subrange(
                        3 + 64 * j,
                        3 + 64 * j + 64,
                    ),
            decreases count as int - i,
        {
            let key: [u8; 64] = to_array_64(slice_subrange(src, 3 + 64 * i, 3 + 64 * i + 64));
            beacons.push(key);
            i = i + 1;
        }
        let r = TcOwners { is_initialized: tag == 1, bump_seed, beacons };
        proof {
            let expected = spec_unpack_tc_owners(src@)->Ok_0;
            assert(r@.beacons =~~= expected.beacons);
        }
        Ok(r)
    }

    /// Decode a quorum-config record, insisting on the exact fixed length.
    pub fn unpack_unchecked(src: &[u8]) -> (r: Result<TcOwners, BridgeError>)
        ensures
            match r {
                Ok(t) => spec_unpack_tc_owners_unchecked(src@) == Ok::<TcOwnersView, BridgeError>(t@),
                Err(e) => spec_unpack_tc_owners_unchecked(src@) == Err::<TcOwnersView, BridgeError>(e),
            },
    {
        if src.len() != 1283 {
            return Err(BridgeError::InvalidAccountData);
        }
        TcOwners::unpack_from_slice(src)
    }

    /// Decode a quorum-config record and require it to be initialized.
    pub fn unpack(src: &[u8]) -> (r: Result<TcOwners, BridgeError>)
        ensures
            match r {
                Ok(t) => spec_unpack_tc_owners_checked(src@) == Ok::<TcOwnersView, BridgeError>(t@),
                Err(e) => spec_unpack_tc_owners_checked(src@) == Err::<TcOwnersView, BridgeError>(e),
            },
    {
        match TcOwners::unpack_unchecked(src) {
            Ok(t) => if t.is_initialized {
                Ok(t)
            } else {
                Err(BridgeError::UninitializedAccount)
            },
            Err(e) => Err(e),
        }
    }

    /// Encode this configuration over the first 1283 bytes of `dst`, leaving
    /// the rest of the buffer unchanged. Unused beacon slots are zero-filled.
    pub fn pack_into_slice(&self, dst: &mut Vec<u8>)
        requires
            old(dst)@.len() >= 1283,
            self@.wf(),
        ensures
            final(dst)@.len() == old(dst)@.len(),
            final(dst)@.subrange(0, 1283) == spec_pack_tc_owners(self@),
            final(dst)@.skip(1283) == old(dst)@.skip(1283),
    {
        let b: [u8; 1] = pack_bool(self.is_initialized);
        dst.set(0, b[0]);
        dst.set(1, self.bump_seed);
        dst.set(2, self.beacons.len() as u8);
        let mut i: usize = 0;
        while i < 1280
            invariant
                0 <= i <= 1280,
                dst@.len() == old(dst)@.len() >= 1283,
                dst@[0] == spec_bool_byte(self.is_initialized),
                dst@[1] == self.bump_seed,
                dst@[2] == self.beacons@.len() as u8,
                forall|j: int| 3 <= j < 3 + i ==> #[trigger] dst@[j] == 0u8,
                forall|j: int| 1283 <= j < dst@.len() ==> #[trigger] dst@[j] == old(dst)@[j],
            decreases 1280 - i,
        {
            dst.set(3 + i, 0);
            i = i + 1;
        }
        let n: usize = self.beacons.len();
        let mut j: usize = 0;
        while j < n
            invariant
                0 <= j <= n == self.beacons@.len() <= 20,
                dst@.len() == old(dst)@.len() >= 1283,
                dst@[0] == spec_bool_byte(self.is_initialized),
                dst@[1] == self.bump_seed,
                dst@[2] == self.beacons@.len() as u8,
                forall|m: int|
                    3 <= m < 3 + 64 * j ==> #[trigger] dst@[m] == self@.beacons[(m - 3)
                        / 64][(m - 3) % 64],
                forall|m: int| 3 + 64 * j <= m < 1283 ==> #[trigger] dst@[m] == 0u8,
                forall|m: int| 1283 <= m < dst@.len() ==> #[trigger] dst@[m] == old(dst)@[m],
            decreases n - j,
        {
            let key: [u8; 64] = self.beacons[j];
            let mut k: usize = 0;
            while k < 64
                invariant
                    0 <= k <= 64,
                    0 <= j < n == self.beacons@.len() <= 20,
                    key@ == self@.beacons[j as int],
                    dst@.len() == old(dst)@.len() >= 1283,
                    dst@[0] == spec_bool_byte(self.is_initialized),
                    dst@[1] == self.bump_seed,
                    dst@[2] == self.beacons@.len() as u8,
                    forall|m: int|
                        3 <= m < 3 + 64 * j + k ==> #[trigger] dst@[m] == self@.beacons[(m - 3)
                            / 64][(m - 3) % 64],
                    forall|m: int| 3 + 64 * j + k <= m < 1283 ==> #[trigger] dst@[m] == 0u8,
                    forall|m: int| 1283 <= m < dst@.len() ==> #[trigger] dst@[m] == old(dst)@[m],
                decreases 64 - k,
            {
                dst.set(3 + 64 * j + k, key[k]);
                proof {
                    let m = 64 * (j as int) + k;
                    assert(m / 64 == j as int && m % 64 == k as int) by (nonlinear_arith)
                        requires
                            m == 64 * (j as int) + k,
                            0 <= k < 64,
                            0 <= j,
                    ;
                }
                k = k + 1;
            }
            j = j + 1;
        }
        proof {
            assert(dst@.subrange(0, 1283) =~= spec_pack_tc_owners(self@));
            assert(dst@.skip(1283) =~= old(dst)@.skip(1283));
        }
    }
}

impl Default for TcOwners {
    /// An empty, uninitialized configuration.
    fn default() -> (r: TcOwners)
        ensures
            r.is_initialized == false,
            r.bump_seed == 0,
            r@.beacons.len() == 0,
    {
        TcOwners { is_initialized: false, bump_seed: 0, beacons: Vec::new() }
    }
}

/// Decoding a packed quorum-config record restores it exactly, for any
/// well-formed configuration (up to 20 beacons of 64 bytes each).
pub proof fn lemma_tc_owners_round_trip(t: TcOwnersView)
    requires
        t.wf(),
    ensures
        spec_unpack_tc_owners(spec_pack_tc_owners(t)) == Ok::<TcOwnersView, BridgeError>(t),
{
    let s = spec_pack_tc_owners(t);
    assert(s.len() == 1283);
    assert(s[0] == spec_bool_byte(t.is_initialized));
    assert(s[2] == t.beacons.len() as u8);
    let decoded = spec_unpack_tc_owners(s)->Ok_0;
    assert forall|i: int| 0 <= i < t.beacons.len() implies #[trigger] decoded.beacons[i]
        == t.beacons[i] by {
        assert forall|k: int| 0 <= k < 64 implies s.subrange(3 + 64 * i, 3 + 64 * i + 64)[k]
            == t.beacons[i][k] by {
            let m = 64 * i + k;
            assert(m < 64 * t.beacons.len()) by (nonlinear_arith)
                requires
                    0 <= k < 64,
                    0 <= i < t.beacons.len(),
                    m == 64 * i + k,
            ;
            assert(m / 64 == i && m % 64 == k) by (nonlinear_arith)
                requires
                    m == 64 * i + k,
                    0 <= k < 64,
                    0 <= i,
            ;
        }
        assert(decoded.beacons[i] =~= t.beacons[i]);
    }
    assert(decoded.beacons =~~= t.beacons);
    assert(decoded =~~= t);
}

} // verus!
