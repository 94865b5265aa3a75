use staking_ledger::codec::{StakeData, VaultDescriptor};
use staking_ledger::error::StakeError;
use staking_ledger::machine::{
    process, process_initialize, process_stake, process_withdraw, Effect, StakeOutcome,
};

const DAY: u64 = 86_400;
const NOW: u64 = 1_620_000_000;

fn program_id() -> Vec<u8> {
    vec![9u8; 32]
}

fn zero_record() -> StakeData {
    StakeData { staked_amount: 0, start_time: 0, end_time: 0, reward_rate: 0 }
}

fn locked_record() -> StakeData {
    // The record left by stake_scenario below.
    StakeData {
        staked_amount: 1000,
        start_time: NOW,
        end_time: NOW + 30 * DAY,
        reward_rate: 3,
    }
}

fn empty_vault() -> VaultDescriptor {
    VaultDescriptor { vault_address: vec![0u8; 32] }
}

#[test]
fn initialize_scenario_binds_the_vault() {
    let pid = program_id();
    let mut addr = vec![0u8; 32];
    addr[0] = 77;
    match process_initialize(&empty_vault(), &addr, &pid, &pid, true) {
        Ok(d) => assert_eq!(d.vault_address, addr),
        Err(e) => panic!("initialize on an empty record must succeed: {:?}", e),
    }
}

#[test]
fn initialize_twice_is_rejected() {
    let pid = program_id();
    let addr = vec![5u8; 32];
    let bound = VaultDescriptor { vault_address: vec![7u8; 32] };
    match process_initialize(&bound, &addr, &pid, &pid, true) {
        Err(e) => assert_eq!(e, StakeError::AlreadyInitialized),
        Ok(_) => panic!("re-initialization must be rejected"),
    }
}

#[test]
fn initialize_needs_funded_storage() {
    let pid = program_id();
    let addr = vec![5u8; 32];
    match process_initialize(&empty_vault(), &addr, &pid, &pid, false) {
        Err(e) => assert_eq!(e, StakeError::StorageNotExempt),
        Ok(_) => panic!("unfunded storage must be rejected"),
    }
}

#[test]
fn initialize_checks_ownership() {
    let pid = program_id();
    let other = vec![8u8; 32];
    let addr = vec![5u8; 32];
    match process_initialize(&empty_vault(), &addr, &other, &pid, true) {
        Err(e) => assert_eq!(e, StakeError::IncorrectOwner),
        Ok(_) => panic!("a foreign record must be rejected"),
    }
}

#[test]
fn stake_zero_amount_is_invalid() {
    let pid = program_id();
    assert_eq!(
        process_stake(&zero_record(), 0, 30, NOW, &pid, &pid),
        Err(StakeError::InvalidArgument)
    );
    // Rejected before any other check: even a foreign record sees the
    // same error, and no state is touched.
    let other = vec![8u8; 32];
    assert_eq!(
        process_stake(&zero_record(), 0, 30, NOW, &other, &pid),
        Err(StakeError::InvalidArgument)
    );
}

#[test]
fn stake_unknown_selector_is_invalid() {
    let pid = program_id();
    assert_eq!(
        process_stake(&zero_record(), 1000, 45, NOW, &pid, &pid),
        Err(StakeError::InvalidArgument)
    );
    assert_eq!(
        process_stake(&zero_record(), 1000, 0, NOW, &pid, &pid),
        Err(StakeError::InvalidArgument)
    );
}

#[test]
fn stake_scenario_locks_the_deposit() {
    let pid = program_id();
    assert_eq!(
        process_stake(&zero_record(), 1000, 30, NOW, &pid, &pid),
        Ok(StakeOutcome { transfer_amount: 1000, record: locked_record() })
    );
}

#[test]
fn stake_on_a_live_record_is_rejected() {
    let pid = program_id();
    assert_eq!(
        process_stake(&locked_record(), 500, 30, NOW + DAY, &pid, &pid),
        Err(StakeError::AlreadyInitialized)
    );
}

#[test]
fn stake_checks_ownership() {
    let pid = program_id();
    let other = vec![8u8; 32];
    assert_eq!(
        process_stake(&zero_record(), 1000, 30, NOW, &other, &pid),
        Err(StakeError::IncorrectOwner)
    );
}

#[test]
fn stake_end_time_overflow_is_rejected() {
    let pid = program_id();
    assert_eq!(
        process_stake(&zero_record(), 1000, 30, u64::MAX - DAY, &pid, &pid),
        Err(StakeError::ArithmeticOverflow)
    );
}

#[test]
fn withdraw_scenario_pays_principal_plus_reward() {
    let pid = program_id();
    assert_eq!(
        process_withdraw(&locked_record(), NOW + 31 * DAY, &pid, &pid, true),
        Ok(StakeOutcome { transfer_amount: 1030, record: zero_record() })
    );
}

#[test]
fn withdraw_before_maturity_is_rejected() {
    let pid = program_id();
    assert_eq!(
        process_withdraw(&locked_record(), NOW + 29 * DAY, &pid, &pid, true),
        Err(StakeError::LockNotMatured)
    );
}

#[test]
fn withdraw_twice_fails_the_second_time() {
    let pid = program_id();
    let now = NOW + 31 * DAY;
    let after_first = match process_withdraw(&locked_record(), now, &pid, &pid, true) {
        Ok(outcome) => outcome.record,
        Err(e) => panic!("the first withdrawal must succeed: {:?}", e),
    };
    assert_eq!(after_first.staked_amount, 0);
    assert_eq!(
        process_withdraw(&after_first, now, &pid, &pid, true),
        Err(StakeError::UninitializedAccount)
    );
}

#[test]
fn withdraw_needs_the_user_signature() {
    let pid = program_id();
    assert_eq!(
        process_withdraw(&locked_record(), NOW + 31 * DAY, &pid, &pid, false),
        Err(StakeError::MissingRequiredSignature)
    );
}

#[test]
fn withdraw_checks_ownership() {
    let pid = program_id();
    let other = vec![8u8; 32];
    assert_eq!(
        process_withdraw(&locked_record(), NOW + 31 * DAY, &other, &pid, true),
        Err(StakeError::IncorrectOwner)
    );
}

#[test]
fn withdraw_with_a_backwards_clock_is_rejected() {
    let pid = program_id();
    // A corrupted record whose lock "matured" before it began: the
    // elapsed time would underflow and must be rejected, not wrapped.
    let corrupt = StakeData {
        staked_amount: 1000,
        start_time: NOW,
        end_time: NOW - 10 * DAY,
        reward_rate: 3,
    };
    assert_eq!(
        process_withdraw(&corrupt, NOW - DAY, &pid, &pid, true),
        Err(StakeError::ArithmeticOverflow)
    );
}

#[test]
fn withdraw_payout_never_exceeds_the_record_cover() {
    let pid = program_id();
    for days in [30u64, 31, 60, 365] {
        match process_withdraw(&locked_record(), NOW + days * DAY, &pid, &pid, true) {
            Ok(outcome) => {
                let periods = days / 30;
                let reward = 1000 * 3 * periods / 100;
                assert_eq!(outcome.transfer_amount, 1000 + reward);
            }
            Err(e) => panic!("a matured withdrawal must succeed: {:?}", e),
        }
    }
}

#[test]
fn process_dispatches_initialize() {
    let pid = program_id();
    let mut data = vec![0u8];
    let addr = vec![3u8; 32];
    data.extend_from_slice(&addr);
    match process(&data, &empty_vault(), &zero_record(), NOW, &pid, &pid, true, true) {
        Ok(Effect::InitializeVault { descriptor }) => assert_eq!(descriptor.vault_address, addr),
        _ => panic!("an initialize buffer must dispatch to Initialize"),
    }
}

#[test]
fn process_dispatches_stake() {
    let pid = program_id();
    let mut data = vec![1u8];
    data.extend_from_slice(&1000u64.to_le_bytes());
    data.extend_from_slice(&30u64.to_le_bytes());
    match process(&data, &empty_vault(), &zero_record(), NOW, &pid, &pid, false, false) {
        Ok(Effect::StakeDeposit { outcome }) => {
            assert_eq!(outcome, StakeOutcome { transfer_amount: 1000, record: locked_record() });
        }
        _ => panic!("a stake buffer must dispatch to Stake"),
    }
}

#[test]
fn process_dispatches_withdraw() {
    let pid = program_id();
    let data = vec![2u8];
    match process(&data, &empty_vault(), &locked_record(), NOW + 31 * DAY, &pid, &pid, true, false)
    {
        Ok(Effect::WithdrawPayout { outcome }) => {
            assert_eq!(outcome, StakeOutcome { transfer_amount: 1030, record: zero_record() });
        }
        _ => panic!("a withdraw buffer must dispatch to Withdraw"),
    }
}

#[test]
fn process_rejects_malformed_buffers() {
    let pid = program_id();
    match process(&vec![], &empty_vault(), &zero_record(), NOW, &pid, &pid, true, true) {
        Err(e) => assert_eq!(e, StakeError::InvalidInstructionData),
        Ok(_) => panic!("an empty buffer must be rejected"),
    }
    match process(&vec![9u8], &empty_vault(), &zero_record(), NOW, &pid, &pid, true, true) {
        Err(e) => assert_eq!(e, StakeError::InvalidInstructionData),
        Ok(_) => panic!("an unknown tag must be rejected"),
    }
}
