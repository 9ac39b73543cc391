use tc_bridge::error::BridgeError;
use tc_bridge::instruction::BridgeInstruction;
use tc_bridge::state::{Nonces, TcOwners};
use tc_bridge::canonical::encode_sign_data;
use tc_bridge::state::SignData;

fn beacon(fill: u8) -> [u8; 64] {
    [fill; 64]
}

fn pack_owners(owners: &TcOwners) -> Vec<u8> {
    let mut buf = vec![0u8; 1283];
    owners.pack_into_slice(&mut buf);
    buf
}

#[test]
fn tc_owners_round_trip_zero_beacons() {
    let owners = TcOwners { is_initialized: true, bump_seed: 7, beacons: Vec::new() };
    let buf = pack_owners(&owners);
    assert_eq!(buf.len(), 1283);
    let back = TcOwners::unpack_from_slice(&buf).unwrap();
    assert_eq!(back.is_initialized, true);
    assert_eq!(back.bump_seed, 7);
    assert_eq!(back.beacons, Vec::<[u8; 64]>::new());
}

#[test]
fn tc_owners_round_trip_one_beacon() {
    let owners = TcOwners { is_initialized: false, bump_seed: 255, beacons: vec![beacon(3)] };
    let buf = pack_owners(&owners);
    let back = TcOwners::unpack_from_slice(&buf).unwrap();
    assert_eq!(back.is_initialized, false);
    assert_eq!(back.bump_seed, 255);
    assert_eq!(back.beacons, vec![beacon(3)]);
}

#[test]
fn tc_owners_round_trip_twenty_beacons() {
    let beacons: Vec<[u8; 64]> = (0..20u8).map(|i| beacon(i)).collect();
    let owners = TcOwners { is_initialized: true, bump_seed: 1, beacons: beacons.clone() };
    let buf = pack_owners(&owners);
    let back = TcOwners::unpack_from_slice(&buf).unwrap();
    assert_eq!(back.beacons, beacons);
}

#[test]
fn tc_owners_pack_zero_fills_unused_slots() {
    let owners = TcOwners { is_initialized: true, bump_seed: 2, beacons: vec![beacon(0xAB)] };
    let buf = pack_owners(&owners);
    assert_eq!(buf[0], 1);
    assert_eq!(buf[1], 2);
    assert_eq!(buf[2], 1);
    assert!(buf[3..67].iter().all(|&b| b == 0xAB));
    assert!(buf[67..1283].iter().all(|&b| b == 0));
}

#[test]
fn tc_owners_decode_rejects_bad_bool() {
    let mut buf = vec![0u8; 1283];
    buf[0] = 2;
    assert_eq!(TcOwners::unpack_from_slice(&buf).unwrap_err(), BridgeError::InvalidBoolValue);
}

#[test]
fn tc_owners_decode_rejects_short_buffer() {
    let buf = vec![0u8; 1282];
    assert_eq!(TcOwners::unpack_from_slice(&buf).unwrap_err(), BridgeError::InvalidAccountData);
}

#[test]
fn tc_owners_decode_rejects_oversized_count() {
    let mut buf = vec![0u8; 1283];
    buf[2] = 21;
    assert_eq!(TcOwners::unpack_from_slice(&buf).unwrap_err(), BridgeError::InvalidAccountData);
}

#[test]
fn tc_owners_unpack_checks_initialization() {
    let owners = TcOwners { is_initialized: false, bump_seed: 0, beacons: Vec::new() };
    let buf = pack_owners(&owners);
    assert_eq!(TcOwners::unpack(&buf).unwrap_err(), BridgeError::UninitializedAccount);
}

#[test]
fn tc_owners_unpack_unchecked_requires_exact_length() {
    let owners = TcOwners { is_initialized: true, bump_seed: 0, beacons: Vec::new() };
    let mut buf = pack_owners(&owners);
    buf.push(0);
    assert_eq!(TcOwners::unpack_unchecked(&buf).unwrap_err(), BridgeError::InvalidAccountData);
}

#[test]
fn tc_owners_new_and_init_copy_params() {
    let params = TcOwners { is_initialized: true, bump_seed: 9, beacons: vec![beacon(5)] };
    let made = TcOwners::new(params);
    assert_eq!(made.is_initialized, true);
    assert_eq!(made.bump_seed, 9);
    assert_eq!(made.beacons, vec![beacon(5)]);
}

#[test]
fn nonces_round_trip() {
    for nonce in [0u64, 1, 1000, u64::MAX] {
        let rec = Nonces { is_initialized: true, nonce };
        let mut buf = vec![0u8; 9];
        rec.pack_into_slice(&mut buf);
        let back = Nonces::unpack_from_slice(&buf).unwrap();
        assert_eq!(back.is_initialized, true);
        assert_eq!(back.nonce, nonce);
    }
}

#[test]
fn nonces_layout_is_flag_then_little_endian() {
    let rec = Nonces { is_initialized: true, nonce: 0x0102030405060708 };
    let mut buf = vec![0u8; 9];
    rec.pack_into_slice(&mut buf);
    assert_eq!(buf, vec![1, 8, 7, 6, 5, 4, 3, 2, 1]);
}

#[test]
fn nonces_decode_rejects_bad_bool() {
    let buf = vec![2u8, 0, 0, 0, 0, 0, 0, 0, 0];
    assert_eq!(Nonces::unpack_from_slice(&buf).unwrap_err(), BridgeError::BorshIoError);
}

#[test]
fn nonces_decode_rejects_short_buffer() {
    let buf = vec![1u8, 0, 0, 0];
    assert_eq!(Nonces::unpack_from_slice(&buf).unwrap_err(), BridgeError::BorshIoError);
}

#[test]
fn pack_bool_encodes_one_byte() {
    assert_eq!(tc_bridge::state::pack_bool(true), [1u8]);
    assert_eq!(tc_bridge::state::pack_bool(false), [0u8]);
}

#[test]
fn unpack_deposit_buffer() {
    let mut buf = vec![0u8];
    buf.extend_from_slice(&1000u64.to_le_bytes());
    buf.extend_from_slice(&[0u8; 20]);
    match BridgeInstruction::unpack(&buf).unwrap() {
        BridgeInstruction::Deposit { amount, tc_address } => {
            assert_eq!(amount, 1000);
            assert_eq!(tc_address, [0u8; 20]);
        }
        _ => panic!("expected a deposit"),
    }
}

#[test]
fn unpack_deposit_ignores_trailing_bytes() {
    let mut buf = vec![0u8];
    buf.extend_from_slice(&7u64.to_le_bytes());
    buf.extend_from_slice(&[9u8; 20]);
    buf.extend_from_slice(&[0xFF; 5]);
    match BridgeInstruction::unpack(&buf).unwrap() {
        BridgeInstruction::Deposit { amount, tc_address } => {
            assert_eq!(amount, 7);
            assert_eq!(tc_address, [9u8; 20]);
        }
        _ => panic!("expected a deposit"),
    }
}

#[test]
fn unpack_withdraw_buffer_lengths() {
    let mut buf = vec![1u8, 2];
    buf.extend_from_slice(&10u64.to_le_bytes());
    buf.extend_from_slice(&20u64.to_le_bytes());
    buf.push(3);
    buf.extend_from_slice(&[5u8; 65]);
    buf.extend_from_slice(&[6u8; 65]);
    buf.extend_from_slice(&[7u8; 65]);
    match BridgeInstruction::unpack(&buf).unwrap() {
        BridgeInstruction::Withdraw { withdraw_info } => {
            assert_eq!(withdraw_info.amounts, vec![10, 20]);
            assert_eq!(withdraw_info.signatures.len(), 3);
            assert_eq!(withdraw_info.signatures[0], [5u8; 65]);
            assert_eq!(withdraw_info.signatures[2], [7u8; 65]);
        }
        _ => panic!("expected a withdraw"),
    }
}

#[test]
fn unpack_init_owners_buffer() {
    let mut buf = vec![2u8, 2];
    buf.extend_from_slice(&[1u8; 64]);
    buf.extend_from_slice(&[2u8; 64]);
    match BridgeInstruction::unpack(&buf).unwrap() {
        BridgeInstruction::InitOwners { init_beacon_info } => {
            assert_eq!(init_beacon_info.beacons, vec![[1u8; 64], [2u8; 64]]);
        }
        _ => panic!("expected an init"),
    }
}

#[test]
fn unpack_rejects_empty_buffer() {
    assert_eq!(BridgeInstruction::unpack(&[]).unwrap_err(), BridgeError::InvalidInstruction);
}

#[test]
fn unpack_rejects_unknown_tag() {
    assert_eq!(BridgeInstruction::unpack(&[9u8]).unwrap_err(), BridgeError::InvalidInstruction);
}

#[test]
fn unpack_rejects_short_deposit() {
    let buf = vec![0u8, 1, 2, 3];
    assert_eq!(
        BridgeInstruction::unpack(&buf).unwrap_err(),
        BridgeError::InstructionUnpackError
    );
}

#[test]
fn unpack_rejects_truncated_withdraw_amounts() {
    let mut buf = vec![1u8, 2];
    buf.extend_from_slice(&10u64.to_le_bytes());
    assert_eq!(
        BridgeInstruction::unpack(&buf).unwrap_err(),
        BridgeError::InstructionUnpackError
    );
}

#[test]
fn unpack_rejects_truncated_withdraw_signatures() {
    let mut buf = vec![1u8, 1];
    buf.extend_from_slice(&10u64.to_le_bytes());
    buf.push(2);
    buf.extend_from_slice(&[5u8; 65]);
    assert_eq!(
        BridgeInstruction::unpack(&buf).unwrap_err(),
        BridgeError::InstructionUnpackError
    );
}

#[test]
fn unpack_rejects_truncated_beacon_list() {
    let mut buf = vec![2u8, 2];
    buf.extend_from_slice(&[1u8; 64]);
    assert_eq!(
        BridgeInstruction::unpack(&buf).unwrap_err(),
        BridgeError::InstructionUnpackError
    );
}

#[test]
fn canonical_message_is_compact_json() {
    let data = SignData { amounts: vec![500], accounts: vec![[0u8; 32]], nonce: 0 };
    let encoded = encode_sign_data(&data);
    let expected = format!(
        "{{\"amounts\":[500],\"accounts\":[[{}]],\"nonce\":0}}",
        ["0"; 32].join(",")
    );
    assert_eq!(String::from_utf8(encoded).unwrap(), expected);
}

#[test]
fn canonical_message_renders_multiple_values() {
    let mut key = [0u8; 32];
    key[0] = 1;
    key[31] = 255;
    let data = SignData { amounts: vec![1, u64::MAX], accounts: vec![key], nonce: 77 };
    let encoded = encode_sign_data(&data);
    let mut nums: Vec<String> = vec!["1".to_string()];
    nums.extend(std::iter::repeat("0".to_string()).take(30));
    nums.push("255".to_string());
    let expected = format!(
        "{{\"amounts\":[1,18446744073709551615],\"accounts\":[[{}]],\"nonce\":77}}",
        nums.join(",")
    );
    assert_eq!(String::from_utf8(encoded).unwrap(), expected);
}
