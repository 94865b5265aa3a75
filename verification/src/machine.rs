//! The staking state machine: the three operations over the persisted
//! records.
//!
//! Each operation is a pure function from the current record and the
//! host-supplied facts (the clock, the record's owner, the program's
//! identity, the signer and rent verdicts) to a typed error or an
//! `Effect`.  An effect names the token transfer to request and the
//! record bytes to persist afterwards; the host performs the transfer
//! first and persists only once the transfer was accepted, so a failed
//! check or a rejected transfer leaves the stored record untouched.
//!
//! Per user the record cycles `unused -> locked -> unused`: a stake is
//! accepted only on an unused record (no commingled lock periods), and a
//! withdrawal pays principal plus reward in full and resets the record
//! for reuse.

use vstd::prelude::*;

use crate::auth::{bytes_all_zero, owner_matches, spec_all_zero};
use crate::codec::{copy_byte_range, StakeData, VaultDescriptor, VAULT_ADDRESS_LEN};
use crate::error::StakeError;
use crate::instruction::{parse_instruction, spec_parse_instruction, Instruction, InstructionView};
use crate::reward::{calculate_reward, spec_accrue, SECONDS_PER_DAY};

verus! {

/// Days of the short lock in the schedule.
pub const DURATION_DAYS_SHORT: u64 = 30;

/// Rate paid by the short lock.
pub const RATE_SHORT: u64 = 3;

/// Days of the long lock in the schedule.
pub const DURATION_DAYS_LONG: u64 = 60;

/// Rate paid by the long lock.
pub const RATE_LONG: u64 = 7;

/// The fixed schedule: the rate a duration selector (a number of days)
/// buys, or `None` for every selector outside the schedule.
pub open spec fn spec_schedule_rate(selector: u64) -> Option<u64> {
    if selector == DURATION_DAYS_SHORT {
        Some(RATE_SHORT)
    } else if selector == DURATION_DAYS_LONG {
        Some(RATE_LONG)
    } else {
        None
    }
}

/// Looks a duration selector up in the fixed schedule.
pub fn schedule_rate(selector: u64) -> (r: Option<u64>)
    ensures
        r == spec_schedule_rate(selector),
{
    if selector == DURATION_DAYS_SHORT {
        Some(RATE_SHORT)
    } else if selector == DURATION_DAYS_LONG {
        Some(RATE_LONG)
    } else {
        None
    }
}

/// What a successful stake or withdrawal asks of the host: the amount to
/// move and the record to persist once the transfer was accepted.
#[derive(Clone, Copy, Debug, PartialEq, Eq, Structural)]
pub struct StakeOutcome {
    /// Tokens to transfer; into the vault for a stake, out of it for a
    /// withdrawal.
    pub transfer_amount: u64,
    /// The record to persist after the transfer is accepted.
    pub record: StakeData,
}

/// What a successful operation asks of the host.
pub enum Effect {
    /// Persist the vault descriptor; no token movement.
    InitializeVault { descriptor: VaultDescriptor },
    /// Transfer `outcome.transfer_amount` from the user's token account
    /// into the vault, then persist `outcome.record`.
    StakeDeposit { outcome: StakeOutcome },
    /// Transfer `outcome.transfer_amount` from the vault back to the
    /// user, under the program-derived authority, then persist
    /// `outcome.record`.
    WithdrawPayout { outcome: StakeOutcome },
}

/// The mathematical shape of an effect.
pub enum EffectView {
    /// Persist the vault descriptor.
    InitializeVault { vault_address: Seq<u8> },
    /// Transfer into the vault, then persist the record.
    StakeDeposit { outcome: StakeOutcome },
    /// Transfer out of the vault, then persist the record.
    WithdrawPayout { outcome: StakeOutcome },
}

impl View for Effect {
    type V = EffectView;

    open spec fn view(&self) -> EffectView {
        match self {
            Effect::InitializeVault { descriptor } => EffectView::InitializeVault {
                vault_address: descriptor.vault_address@,
            },
            Effect::StakeDeposit { outcome } => EffectView::StakeDeposit { outcome: *outcome },
            Effect::WithdrawPayout { outcome } => EffectView::WithdrawPayout { outcome: *outcome },
        }
    }
}

/// The outcome of Initialize: the vault address to persist, or the first
/// failing check.  The vault may be bound exactly once; re-initialization
/// is a hard error, so custody is never silently rebound.
pub open spec fn spec_initialize(
    current_vault: Seq<u8>,
    vault_address: Seq<u8>,
    record_owner: Seq<u8>,
    program_id: Seq<u8>,
    storage_exempt: bool,
) -> Result<Seq<u8>, StakeError> {
    if record_owner != program_id {
        Err(StakeError::IncorrectOwner)
    } else if !storage_exempt {
        Err(StakeError::StorageNotExempt)
    } else if !spec_all_zero(current_vault) {
        Err(StakeError::AlreadyInitialized)
    } else {
        Ok(vault_address)
    }
}

/// The outcome of Stake: the deposit to request and the locked record to
/// persist, or the first failing check.
///
/// A zero amount and a selector outside the schedule are rejected before
/// anything else, so they always surface as `InvalidArgument`; a record
/// still holding a stake is never overwritten.
pub open spec fn spec_stake(
    record: StakeData,
    amount: u64,
    duration_selector: u64,
    now: u64,
    record_owner: Seq<u8>,
    program_id: Seq<u8>,
) -> Result<StakeOutcome, StakeError> {
    if amount == 0 {
        Err(StakeError::InvalidArgument)
    } else {
        match spec_schedule_rate(duration_selector) {
            None => Err(StakeError::InvalidArgument),
            Some(rate) => {
                if record_owner != program_id {
                    Err(StakeError::IncorrectOwner)
                } else if record.staked_amount != 0 {
                    Err(StakeError::AlreadyInitialized)
                } else {
                    let duration = duration_selector * SECONDS_PER_DAY;
                    if now + duration > u64::MAX {
                        Err(StakeError::ArithmeticOverflow)
                    } else {
                        Ok(
                            StakeOutcome {
                                transfer_amount: amount,
                                record: StakeData {
                                    staked_amount: amount,
                                    start_time: now,
                                    end_time: (now + duration) as u64,
                                    reward_rate: rate,
                                },
                            },
                        )
                    }
                }
            },
        }
    }
}

/// The outcome of Withdraw: the payout to request and the reset record to
/// persist, or the first failing check.
///
/// The payout is exactly the principal plus the reward accrued over
/// `now - start_time`.  A clock before `start_time` would underflow that
/// elapsed time and is rejected, never wrapped into a huge reward.
pub open spec fn spec_withdraw(
    record: StakeData,
    now: u64,
    record_owner: Seq<u8>,
    program_id: Seq<u8>,
    user_is_signer: bool,
) -> Result<StakeOutcome, StakeError> {
    if record_owner != program_id {
        Err(StakeError::IncorrectOwner)
    } else if !user_is_signer {
        Err(StakeError::MissingRequiredSignature)
    } else if record.staked_amount == 0 {
        Err(StakeError::UninitializedAccount)
    } else if now < record.end_time {
        Err(StakeError::LockNotMatured)
    } else if now < record.start_time {
        Err(StakeError::ArithmeticOverflow)
    } else {
        let reward = spec_accrue(record.staked_amount, record.reward_rate, (now
            - record.start_time) as u64);
        if reward > u64::MAX {
            Err(StakeError::ArithmeticOverflow)
        } else if record.staked_amount + reward > u64::MAX {
            Err(StakeError::ArithmeticOverflow)
        } else {
            Ok(
                StakeOutcome {
                    transfer_amount: (record.staked_amount + reward) as u64,
                    record: StakeData {
                        staked_amount: 0,
                        start_time: 0,
                        end_time: 0,
                        reward_rate: 0,
                    },
                },
            )
        }
    }
}

/// Initialize: binds the program to its vault.  No token movement.
pub fn process_initialize(
    current: &VaultDescriptor,
    vault_address: &Vec<u8>,
    record_owner: &Vec<u8>,
    program_id: &Vec<u8>,
    storage_exempt: bool,
) -> (r: Result<VaultDescriptor, StakeError>)
    requires
        vault_address@.len() == VAULT_ADDRESS_LEN,
    ensures
        (match spec_initialize(
            current.vault_address@,
            vault_address@,
            record_owner@,
            program_id@,
            storage_exempt,
        ) {
            Ok(addr) => r is Ok && r->Ok_0.vault_address@ == addr && r->Ok_0.wf(),
            Err(e) => r is Err && r->Err_0 == e,
        }),
{
    if !owner_matches(record_owner, program_id) {
        return Err(StakeError::IncorrectOwner);
    }
    if !storage_exempt {
        return Err(StakeError::StorageNotExempt);
    }
    if !bytes_all_zero(&current.vault_address) {
        return Err(StakeError::AlreadyInitialized);
    }
    let addr = copy_byte_range(vault_address, 0, vault_address.len());
    assert(addr@ =~= vault_address@);
    Ok(VaultDescriptor { vault_address: addr })
}

/// Stake: locks a deposit for the scheduled duration.
///
/// On success the host must first transfer `transfer_amount` from the
/// user's token account into the vault and only then persist the record;
/// on any error nothing is persisted.
pub fn process_stake(
    record: &StakeData,
    amount: u64,
    duration_selector: u64,
    now: u64,
    record_owner: &Vec<u8>,
    program_id: &Vec<u8>,
) -> (r: Result<StakeOutcome, StakeError>)
    ensures
        r == spec_stake(*record, amount, duration_selector, now, record_owner@, program_id@),
{
    if amount == 0 {
        return Err(StakeError::InvalidArgument);
    }
    let rate = match schedule_rate(duration_selector) {
        None => {
            return Err(StakeError::InvalidArgument);
        },
        Some(rt) => rt,
    };
    if !owner_matches(record_owner, program_id) {
        return Err(StakeError::IncorrectOwner);
    }
    if record.staked_amount != 0 {
        return Err(StakeError::AlreadyInitialized);
    }
    assert(duration_selector == DURATION_DAYS_SHORT || duration_selector == DURATION_DAYS_LONG);
    let duration: u64 = duration_selector * SECONDS_PER_DAY;
    match now.checked_add(duration) {
        None => Err(StakeError::ArithmeticOverflow),
        Some(end_time) => Ok(
            StakeOutcome {
                transfer_amount: amount,
                record: StakeData {
                    staked_amount: amount,
                    start_time: now,
                    end_time,
                    reward_rate: rate,
                },
            },
        ),
    }
}

/// Withdraw: pays back a matured stake with its reward and resets the
/// record.
///
/// On success the host must first transfer `transfer_amount` from the
/// vault back to the user, under the program-derived authority, and only
/// then persist the reset record; on any error nothing is persisted.
pub fn process_withdraw(
    record: &StakeData,
    now: u64,
    record_owner: &Vec<u8>,
    program_id: &Vec<u8>,
    user_is_signer: bool,
) -> (r: Result<StakeOutcome, StakeError>)
    ensures
        r == spec_withdraw(*record, now, record_owner@, program_id@, user_is_signer),
{
    if !owner_matches(record_owner, program_id) {
        return Err(StakeError::IncorrectOwner);
    }
    if !user_is_signer {
        return Err(StakeError::MissingRequiredSignature);
    }
    if record.staked_amount == 0 {
        return Err(StakeError::UninitializedAccount);
    }
    if now < record.end_time {
        return Err(StakeError::LockNotMatured);
    }
    if now < record.start_time {
        return Err(StakeError::ArithmeticOverflow);
    }
    let elapsed: u64 = now - record.start_time;
    let reward = match calculate_reward(record.staked_amount, record.reward_rate, elapsed) {
        Err(e) => {
            return Err(e);
        },
        Ok(rw) => rw,
    };
    match record.staked_amount.checked_add(reward) {
        None => Err(StakeError::ArithmeticOverflow),
        Some(total) => Ok(
            StakeOutcome {
                transfer_amount: total,
                record: StakeData { staked_amount: 0, start_time: 0, end_time: 0, reward_rate: 0 },
            },
        ),
    }
}

/// The outcome of one full request: the instruction bytes decoded and the
/// named operation applied to the records as they stand.
pub open spec fn spec_process(
    instruction_data: Seq<u8>,
    current_vault: Seq<u8>,
    record: StakeData,
    now: u64,
    record_owner: Seq<u8>,
    program_id: Seq<u8>,
    user_is_signer: bool,
    storage_exempt: bool,
) -> Result<EffectView, StakeError> {
    match spec_parse_instruction(instruction_data) {
        Err(e) => Err(e),
        Ok(InstructionView::Initialize { vault_address }) => match spec_initialize(
            current_vault,
            vault_address,
            record_owner,
            program_id,
            storage_exempt,
        ) {
            Ok(addr) => Ok(EffectView::InitializeVault { vault_address: addr }),
            Err(e) => Err(e),
        },
        Ok(InstructionView::Stake { amount, duration_selector }) => match spec_stake(
            record,
            amount,
            duration_selector,
            now,
            record_owner,
            program_id,
        ) {
            Ok(outcome) => Ok(EffectView::StakeDeposit { outcome }),
            Err(e) => Err(e),
        },
        Ok(InstructionView::Withdraw) => match spec_withdraw(
            record,
            now,
            record_owner,
            program_id,
            user_is_signer,
        ) {
            Ok(outcome) => Ok(EffectView::WithdrawPayout { outcome }),
            Err(e) => Err(e),
        },
    }
}

/// Decodes one instruction buffer and runs the named operation against
/// the records as they stand, returning the effect for the host to apply
/// or the first failing check.
pub fn process(
    instruction_data: &Vec<u8>,
    vault: &VaultDescriptor,
    record: &StakeData,
    now: u64,
    record_owner: &Vec<u8>,
    program_id: &Vec<u8>,
    user_is_signer: bool,
    storage_exempt: bool,
) -> (r: Result<Effect, StakeError>)
    ensures
        (match spec_process(
            instruction_data@,
            vault.vault_address@,
            *record,
            now,
            record_owner@,
            program_id@,
            user_is_signer,
            storage_exempt,
        ) {
            Ok(m) => r is Ok && r->Ok_0@ == m,
            Err(e) => r is Err && r->Err_0 == e,
        }),
{
    match parse_instruction(instruction_data) {
        Err(e) => Err(e),
        Ok(Instruction::Initialize { vault_address }) => {
            match process_initialize(vault, &vault_address, record_owner, program_id, storage_exempt) {
                Ok(descriptor) => Ok(Effect::InitializeVault { descriptor }),
                Err(e) => Err(e),
            }
        },
        Ok(Instruction::Stake { amount, duration_selector }) => {
            match process_stake(record, amount, duration_selector, now, record_owner, program_id) {
                Ok(outcome) => Ok(Effect::StakeDeposit { outcome }),
                Err(e) => Err(e),
            }
        },
        Ok(Instruction::Withdraw) => {
            match process_withdraw(record, now, record_owner, program_id, user_is_signer) {
                Ok(outcome) => Ok(Effect::WithdrawPayout { outcome }),
                Err(e) => Err(e),
            }
        },
    }
}

/// A stake of zero tokens always fails with `InvalidArgument`, whatever
/// the record, the schedule selector, the clock or the caller; nothing is
/// persisted on an error.
pub proof fn lemma_stake_zero_amount_rejected(
    record: StakeData,
    duration_selector: u64,
    now: u64,
    record_owner: Seq<u8>,
    program_id: Seq<u8>,
)
    ensures
        spec_stake(record, 0, duration_selector, now, record_owner, program_id)
            == Err::<StakeOutcome, StakeError>(StakeError::InvalidArgument),
{
}

/// A duration selector outside the schedule always fails with
/// `InvalidArgument`, whatever the record, the amount, the clock or the
/// caller; nothing is persisted on an error.
pub proof fn lemma_stake_unknown_selector_rejected(
    record: StakeData,
    amount: u64,
    duration_selector: u64,
    now: u64,
    record_owner: Seq<u8>,
    program_id: Seq<u8>,
)
    requires
        spec_schedule_rate(duration_selector) is None,
    ensures
        spec_stake(record, amount, duration_selector, now, record_owner, program_id)
            == Err::<StakeOutcome, StakeError>(StakeError::InvalidArgument),
{
}

/// An authorized withdrawal from a live record fails with
/// `LockNotMatured` as long as the clock is before `end_time`; the record
/// is left unchanged, since nothing is persisted on an error.
pub proof fn lemma_withdraw_before_maturity_rejected(
    record: StakeData,
    now: u64,
    record_owner: Seq<u8>,
    program_id: Seq<u8>,
    user_is_signer: bool,
)
    requires
        record_owner == program_id,
        user_is_signer,
        record.staked_amount > 0,
        now < record.end_time,
    ensures
        spec_withdraw(record, now, record_owner, program_id, user_is_signer)
            == Err::<StakeOutcome, StakeError>(StakeError::LockNotMatured),
{
}

/// A record written by a successful stake is well formed: the lock ends
/// no earlier than it starts, the principal is the accepted (positive)
/// amount, and the rate is the one the schedule gives for the selector.
pub proof fn lemma_stake_writes_well_formed_record(
    record: StakeData,
    amount: u64,
    duration_selector: u64,
    now: u64,
    record_owner: Seq<u8>,
    program_id: Seq<u8>,
)
    ensures
        (match spec_stake(record, amount, duration_selector, now, record_owner, program_id) {
            Ok(outcome) => outcome.transfer_amount == amount && outcome.record.staked_amount
                == amount > 0 && outcome.record.start_time == now && outcome.record.end_time
                >= outcome.record.start_time && Some(outcome.record.reward_rate)
                == spec_schedule_rate(duration_selector),
            Err(_) => true,
        }),
{
}

/// No request ever asks the vault for more than the record covers: the
/// only effect that moves tokens out of the vault is a withdrawal payout,
/// and its amount is at most (in fact exactly) the record's principal
/// plus the reward accrued from that same record's fields at the time of
/// the request.  A stake deposit moves tokens into the vault, and
/// initialization moves none, so no sequence of operations can request an
/// outflow beyond what the record then standing covers.
pub proof fn lemma_vault_outflow_bounded(
    instruction_data: Seq<u8>,
    current_vault: Seq<u8>,
    record: StakeData,
    now: u64,
    record_owner: Seq<u8>,
    program_id: Seq<u8>,
    user_is_signer: bool,
    storage_exempt: bool,
)
    ensures
        (match spec_process(
            instruction_data,
            current_vault,
            record,
            now,
            record_owner,
            program_id,
            user_is_signer,
            storage_exempt,
        ) {
            Ok(EffectView::WithdrawPayout { outcome }) => now >= record.start_time
                && outcome.transfer_amount <= record.staked_amount + spec_accrue(
                record.staked_amount,
                record.reward_rate,
                (now - record.start_time) as u64,
            ),
            _ => true,
        }),
{
}

} // verus!
