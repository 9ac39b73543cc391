use vstd::prelude::*;
use vstd::bytes::{spec_u64_from_le_bytes, u64_from_le_bytes};
use vstd::slice::slice_subrange;
use crate::error::BridgeError;
use crate::state::{OwnerInit, OwnerInitView, WithdrawRequest, WithdrawRequestView};
use crate::util::{to_array_20, to_array_64, to_array_65};

verus! {

/// A decoded instruction: the tag byte selects the variant, the remaining
/// bytes are its fields in strict order.
#[derive(Debug)]
pub enum BridgeInstruction {
    /// Move value into the vault. Fields: 8-byte little-endian amount, then
    /// a 20-byte destination-chain address.
    Deposit { amount: u64, tc_address: [u8; 20] },
    /// Move value out of the vault under a signature quorum. Fields: a
    /// 1-byte count of 8-byte amounts, then a 1-byte count of 65-byte
    /// signatures.
    Withdraw { withdraw_info: WithdrawRequest },
    /// Create the persisted records. Fields: a 1-byte count of 64-byte
    /// beacon public keys.
    InitOwners { init_beacon_info: OwnerInit },
}

/// Mathematical model of a decoded instruction.
pub enum BridgeInstructionView {
    Deposit { amount: u64, tc_address: Seq<u8> },
    Withdraw { withdraw_info: WithdrawRequestView },
    InitOwners { init_beacon_info: OwnerInitView },
}

impl View for BridgeInstruction {
    type V = BridgeInstructionView;

    open spec fn view(&self) -> BridgeInstructionView {
        match self {
            BridgeInstruction::Deposit { amount, tc_address } => BridgeInstructionView::Deposit {
                amount: *amount,
                tc_address: tc_address@,
            },
            BridgeInstruction::Withdraw { withdraw_info } => BridgeInstructionView::Withdraw {
                withdraw_info: withdraw_info@,
            },
            BridgeInstruction::InitOwners { init_beacon_info } => BridgeInstructionView::InitOwners {
                init_beacon_info: init_beacon_info@,
            },
        }
    }
}

/// The amounts of a withdraw instruction: `n` 8-byte little-endian values
/// starting right after the tag and count bytes.
pub open spec fn spec_withdraw_amounts(s: Seq<u8>, n: int) -> Seq<u64> {
    Seq::new(n as nat, |i: int| spec_u64_from_le_bytes(s.subrange(2 + 8 * i, 2 + 8 * i + 8)))
}

/// The signatures of a withdraw instruction: `m` 65-byte values starting at
/// offset `off`.
pub open spec fn spec_withdraw_signatures(s: Seq<u8>, off: int, m: int) -> Seq<Seq<u8>> {
    Seq::new(m as nat, |i: int| s.subrange(off + 65 * i, off + 65 * i + 65))
}

/// The beacon keys of a bootstrap instruction: `k` 64-byte values starting
/// right after the tag and count bytes.
pub open spec fn spec_init_beacons(s: Seq<u8>, k: int) -> Seq<Seq<u8>> {
    Seq::new(k as nat, |i: int| s.subrange(2 + 64 * i, 2 + 64 * i + 64))
}

/// Exact decoding of an instruction buffer. Fields are read in strict order
/// with no padding; a short read is an unpack error, distinct from the
/// unknown-tag error; trailing bytes are ignored.
pub open spec fn spec_unpack_instruction(s: Seq<u8>) -> Result<
    BridgeInstructionView,
    BridgeError,
> {
    if s.len() == 0 {
        Err(BridgeError::InvalidInstruction)
    } else if s[0] == 0 {
        if s.len() < 29 {
            Err(BridgeError::InstructionUnpackError)
        } else {
            Ok(
                BridgeInstructionView::Deposit {
                    amount: spec_u64_from_le_bytes(s.subrange(1, 9)),
                    tc_address: s.subrange(9, 29),
                },
            )
        }
    } else if s[0] == 1 {
        if s.len() < 2 {
            Err(BridgeError::InstructionUnpackError)
        } else {
            let n = s[1] as int;
            if s.len() < 3 + 8 * n {
                Err(BridgeError::InstructionUnpackError)
            } else {
                let m = s[2 + 8 * n] as int;
                if s.len() < 3 + 8 * n + 65 * m {
                    Err(BridgeError::InstructionUnpackError)
                } else {
                    Ok(
                        BridgeInstructionView::Withdraw {
                            withdraw_info: WithdrawRequestView {
                                amounts: spec_withdraw_amounts(s, n),
                                signatures: spec_withdraw_signatures(s, 3 + 8 * n, m),
                            },
                        },
                    )
                }
            }
        }
    } else if s[0] == 2 {
        if s.len() < 2 {
            Err(BridgeError::InstructionUnpackError)
        } else {
            let k = s[1] as int;
            if s.len() < 2 + 64 * k {
                Err(BridgeError::InstructionUnpackError)
            } else {
                Ok(
                    BridgeInstructionView::InitOwners {
                        init_beacon_info: OwnerInitView { beacons: spec_init_beacons(s, k) },
                    },
                )
            }
        }
    } else {
        Err(BridgeError::InvalidInstruction)
    }
}

impl BridgeInstruction {
    /// Unpacks a byte buffer into a [`BridgeInstruction`].
    pub fn unpack(input: &[u8]) -> (r: Result<BridgeInstruction, BridgeError>)
        ensures
            match r {
                Ok(ins) => spec_unpack_instruction(input@) == Ok::<
                    BridgeInstructionView,
                    BridgeError,
                >(ins@),
                Err(e) => spec_unpack_instruction(input@) == Err::<
                    BridgeInstructionView,
                    BridgeError,
                >(e),
            },
    {
        if input.len() == 0 {
            return Err(BridgeError::InvalidInstruction);
        }
        let tag: u8 = input[0];
        if tag == 0 {
            if input.len() < 29 {
                return Err(BridgeError::InstructionUnpackError);
            }
            let (amount, _) = match Self::unpack_u64(input, 1) {
                Ok(p) => p,
                Err(e) => { return Err(e) },
            };
            let (tc_address, _) = match Self::unpack_bytes20(input, 9) {
                Ok(p) => p,
                Err(e) => { return Err(e) },
            };
            Ok(BridgeInstruction::Deposit { amount, tc_address })
        } else if tag == 1 {
            let (count, _) = match Self::unpack_u8(input, 1) {
                Ok(p) => p,
                Err(e) => { return Err(e) },
            };
            let n: usize = count as usize;
            if input.len() < 3 + 8 * n {
                return Err(BridgeError::InstructionUnpackError);
            }
            let mut amounts: Vec<u64> = Vec::new();
            let mut i: usize = 0;
            while i < n
                invariant
                    0 <= i <= n <= 255,
                    input@.len() >= 3 + 8 * n,
                    amounts@.len() == i,
                    forall|j: int|
                        0 <= j < i ==> amounts@[j] == spec_u64_from_le_bytes(
                            #[trigger] input@.subrange(2 + 8 * j, 2 + 8 * j + 8),
                        ),
                decreases n - i,
            {
                let (amount, _) = match Self::unpack_u64(input, 2 + 8 * i) {
                    Ok(p) => p,
                    Err(e) => { return Err(e) },
                };
                amounts.push(amount);
                i = i + 1;
            }
            let (sig_count, _) = match Self::unpack_u8(input, 2 + 8 * n) {
                Ok(p) => p,
                Err(e) => { return Err(e) },
            };
            let m: usize = sig_count as usize;
            if input.len() < 3 + 8 * n + 65 * m {
                return Err(BridgeError::InstructionUnpackError);
            }
            let base: usize = 3 + 8 * n;
            let mut signatures: Vec<[u8; 65]> = Vec::new();
            let mut i: usize = 0;
            while i < m
                invariant
                    0 <= i <= m <= 255,
                    base == 3 + 8 * n,
                    n <= 255,
                    input@.len() >= base + 65 * m,
                    signatures@.len() == i,
                    forall|j: int|
                        0 <= j < i ==> (#[trigger] signatures@[j])@ == input@.subrange(
                            base + 65 * j,
                            base + 65 * j + 65,
                        ),
                decreases m - i,
            {
                let (signature, _) = match Self::unpack_bytes65(input, base + 65 * i) {
                    Ok(p) => p,
                    Err(e) => { return Err(e) },
                };
                signatures.push(signature);
                i = i + 1;
            }
            let r = BridgeInstruction::Withdraw {
                withdraw_info: WithdrawRequest { amounts, signatures },
            };
            proof {
                let s = input@;
                let n_ = n as int;
                let m_ = m as int;
                assert(amounts@ =~= spec_withdraw_amounts(s, n_));
                assert(signatures@.map_values(|sg: [u8; 65]| sg@) =~~= spec_withdraw_signatures(
                    s,
                    3 + 8 * n_,
                    m_,
                ));
            }
            Ok(r)
        } else if tag == 2 {
            let (count, _) = match Self::unpack_u8(input, 1) {
                Ok(p) => p,
                Err(e) => { return Err(e) },
            };
            let k: usize = count as usize;
            if input.len() < 2 + 64 * k {
                return Err(BridgeError::InstructionUnpackError);
            }
            let mut beacons: Vec<[u8; 64]> = Vec::new();
            let mut i: usize = 0;
            while i < k
                invariant
                    0 <= i <= k <= 255,
                    input@.len() >= 2 + 64 * k,
                    beacons@.len() == i,
                    forall|j: int|
                        0 <= j < i ==> (#[trigger] beacons@[j])@ == input@.subrange(
                            2 + 64 * j,
                            2 + 64 * j + 64,
                        ),
                decreases k - i,
            {
                let (beacon, _) = match Self::unpack_bytes64(input, 2 + 64 * i) {
                    Ok(p) => p,
                    Err(e) => { return Err(e) },
                };
                beacons.push(beacon);
                i = i + 1;
            }
            let r = BridgeInstruction::InitOwners {
                init_beacon_info: OwnerInit { beacons },
            };
            proof {
                assert(beacons@.map_values(|b: [u8; 64]| b@) =~~= spec_init_beacons(
                    input@,
                    k as int,
                ));
            }
            Ok(r)
        } else {
            Err(BridgeError::InvalidInstruction)
        }
    }

    /// Read an 8-byte little-endian integer at `pos`.
    fn unpack_u64(input: &[u8], pos: usize) -> (r: Result<(u64, usize), BridgeError>)
        requires
            pos <= input@.len(),
        ensures
            match r {
                Ok(p) => pos + 8 <= input@.len() && p.0 == spec_u64_from_le_bytes(
                    input@.subrange(pos as int, pos as int + 8),
                ) && p.1 == pos + 8,
                Err(e) => input@.len() < pos + 8 && e == BridgeError::InstructionUnpackError,
            },
    {
        if input.len() - pos < 8 {
            return Err(BridgeError::InstructionUnpackError);
        }
        let value: u64 = u64_from_le_bytes(slice_subrange(input, pos, pos + 8));
        Ok((value, pos + 8))
    }

    /// Read a single count byte at `pos`.
    fn unpack_u8(input: &[u8], pos: usize) -> (r: Result<(u8, usize), BridgeError>)
        requires
            pos <= input@.len(),
        ensures
            match r {
                Ok(p) => pos + 1 <= input@.len() && p.0 == input@[pos as int] && p.1 == pos + 1,
                Err(e) => input@.len() < pos + 1 && e == BridgeError::InstructionUnpackError,
            },
    {
        if input.len() - pos < 1 {
            return Err(BridgeError::InstructionUnpackError);
        }
        Ok((input[pos], pos + 1))
    }

    /// Read a 20-byte field at `pos`.
    fn unpack_bytes20(input: &[u8], pos: usize) -> (r: Result<([u8; 20], usize), BridgeError>)
        requires
            pos <= input@.len(),
        ensures
            match r {
                Ok(p) => pos + 20 <= input@.len() && p.0@ == input@.subrange(
                    pos as int,
                    pos as int + 20,
                ) && p.1 == pos + 20,
                Err(e) => input@.len() < pos + 20 && e == BridgeError::InstructionUnpackError,
            },
    {
        if input.len() - pos < 20 {
            return Err(BridgeError::InstructionUnpackError);
        }
        let bytes: [u8; 20] = to_array_20(slice_subrange(input, pos, pos + 20));
        Ok((bytes, pos + 20))
    }

    /// Read a 65-byte signature field at `pos`.
    fn unpack_bytes65(input: &[u8], pos: usize) -> (r: Result<([u8; 65], usize), BridgeError>)
        requires
            pos <= input@.len(),
        ensures
            match r {
                Ok(p) => pos + 65 <= input@.len() && p.0@ == input@.subrange(
                    pos as int,
                    pos as int + 65,
                ) && p.1 == pos + 65,
                Err(e) => input@.len() < pos + 65 && e == BridgeError::InstructionUnpackError,
            },
    {
        if input.len() - pos < 65 {
            return Err(BridgeError::InstructionUnpackError);
        }
        let bytes: [u8; 65] = to_array_65(slice_subrange(input, pos, pos + 65));
        Ok((bytes, pos + 65))
    }

    /// Read a 64-byte beacon key field at `pos`.
    fn unpack_bytes64(input: &[u8], pos: usize) -> (r: Result<([u8; 64], usize), BridgeError>)
        requires
            pos <= input@.len(),
        ensures
            match r {
                Ok(p) => pos + 64 <= input@.len() && p.0@ == input@.subrange(
                    pos as int,
                    pos as int + 64,
                ) && p.1 == pos + 64,
                Err(e) => input@.len() < pos + 64 && e == BridgeError::InstructionUnpackError,
            },
    {
        if input.len() - pos < 64 {
            return Err(BridgeError::InstructionUnpackError);
        }
        let bytes: [u8; 64] = to_array_64(slice_subrange(input, pos, pos + 64));
        Ok((bytes, pos + 64))
    }
}

} // verus!
