use staking_ledger::codec::{
    decode_stake_data, decode_vault_descriptor, encode_stake_data, encode_vault_descriptor,
    StakeData, VaultDescriptor,
};
use staking_ledger::error::StakeError;

fn sample_record() -> StakeData {
    StakeData {
        staked_amount: 1000,
        start_time: 1_620_000_000,
        end_time: 1_622_592_000,
        reward_rate: 3,
    }
}

#[test]
fn stake_data_round_trip() {
    let r = sample_record();
    let bytes = encode_stake_data(&r);
    assert_eq!(bytes.len(), 32);
    assert_eq!(decode_stake_data(&bytes), Ok(r));
}

#[test]
fn stake_data_round_trip_extremes() {
    let r = StakeData {
        staked_amount: u64::MAX,
        start_time: 0,
        end_time: u64::MAX - 1,
        reward_rate: 1,
    };
    let bytes = encode_stake_data(&r);
    assert_eq!(decode_stake_data(&bytes), Ok(r));
}

#[test]
fn stake_data_layout_is_little_endian() {
    let r = StakeData {
        staked_amount: 0x0102_0304_0506_0708,
        start_time: 1,
        end_time: 2,
        reward_rate: 0x00ff,
    };
    let bytes = encode_stake_data(&r);
    assert_eq!(&bytes[0..8], &[0x08, 0x07, 0x06, 0x05, 0x04, 0x03, 0x02, 0x01]);
    assert_eq!(&bytes[8..16], &[1, 0, 0, 0, 0, 0, 0, 0]);
    assert_eq!(&bytes[16..24], &[2, 0, 0, 0, 0, 0, 0, 0]);
    assert_eq!(&bytes[24..32], &[0xff, 0, 0, 0, 0, 0, 0, 0]);
}

#[test]
fn zero_buffer_decodes_to_zero_record() {
    let bytes = vec![0u8; 32];
    assert_eq!(
        decode_stake_data(&bytes),
        Ok(StakeData { staked_amount: 0, start_time: 0, end_time: 0, reward_rate: 0 })
    );
}

#[test]
fn stake_data_wrong_length_is_rejected() {
    assert_eq!(decode_stake_data(&vec![]), Err(StakeError::DecodeError));
    assert_eq!(decode_stake_data(&vec![0u8; 31]), Err(StakeError::DecodeError));
    assert_eq!(decode_stake_data(&vec![0u8; 33]), Err(StakeError::DecodeError));
}

#[test]
fn vault_descriptor_round_trip() {
    let mut addr = vec![0u8; 32];
    addr[0] = 7;
    addr[31] = 9;
    let d = VaultDescriptor { vault_address: addr.clone() };
    let bytes = encode_vault_descriptor(&d);
    assert_eq!(bytes, addr);
    match decode_vault_descriptor(&bytes) {
        Ok(back) => assert_eq!(back.vault_address, addr),
        Err(_) => panic!("a 32-byte buffer must decode"),
    }
}

#[test]
fn vault_descriptor_wrong_length_is_rejected() {
    match decode_vault_descriptor(&vec![0u8; 33]) {
        Ok(_) => panic!("a 33-byte buffer must be rejected"),
        Err(e) => assert_eq!(e, StakeError::DecodeError),
    }
}
