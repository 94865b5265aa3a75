//! The instruction decoder: an opaque byte buffer becomes one of the three
//! typed operations, or is rejected.
//!
//! Wire format: the first byte is a discriminant tag, the rest is the
//! tag-specific fixed-width payload.  Initialize carries a 32-byte vault
//! address, Stake two little-endian 64-bit fields (amount, then duration
//! selector), Withdraw nothing.  An empty buffer, an unknown tag or a
//! payload of the wrong length is rejected whole; nothing is truncated or
//! zero-filled.

use vstd::prelude::*;

use crate::codec::{copy_byte_range, read_u64_le, spec_le_u64, VAULT_ADDRESS_LEN};
use crate::error::StakeError;

verus! {

/// Tag byte of the Initialize operation.
pub const TAG_INITIALIZE: u8 = 0;

/// Tag byte of the Stake operation.
pub const TAG_STAKE: u8 = 1;

/// Tag byte of the Withdraw operation.
pub const TAG_WITHDRAW: u8 = 2;

/// A decoded operation request.
#[derive(Debug)]
pub enum Instruction {
    /// Bind the program to its token vault; carries the vault address.
    Initialize { vault_address: Vec<u8> },
    /// Lock `amount` tokens for the scheduled duration named by
    /// `duration_selector`.
    Stake { amount: u64, duration_selector: u64 },
    /// Pay back the matured stake with its reward.
    Withdraw,
}

/// The mathematical shape of a decoded operation request.
pub enum InstructionView {
    /// Bind the program to its token vault.
    Initialize { vault_address: Seq<u8> },
    /// Lock `amount` tokens for the scheduled duration.
    Stake { amount: u64, duration_selector: u64 },
    /// Pay back the matured stake.
    Withdraw,
}

impl View for Instruction {
    type V = InstructionView;

    open spec fn view(&self) -> InstructionView {
        match self {
            Instruction::Initialize { vault_address } => InstructionView::Initialize {
                vault_address: vault_address@,
            },
            Instruction::Stake { amount, duration_selector } => InstructionView::Stake {
                amount: *amount,
                duration_selector: *duration_selector,
            },
            Instruction::Withdraw => InstructionView::Withdraw,
        }
    }
}

/// The operation denoted by an instruction buffer, or
/// `InvalidInstructionData` when the buffer is empty, its tag is unknown,
/// or its length does not match the tag's fixed payload size.
pub open spec fn spec_parse_instruction(s: Seq<u8>) -> Result<InstructionView, StakeError> {
    if s.len() == 0 {
        Err(StakeError::InvalidInstructionData)
    } else if s[0] == TAG_INITIALIZE {
        if s.len() == 1 + VAULT_ADDRESS_LEN {
            Ok(InstructionView::Initialize { vault_address: s.subrange(1, 33) })
        } else {
            Err(StakeError::InvalidInstructionData)
        }
    } else if s[0] == TAG_STAKE {
        if s.len() == 17 {
            Ok(
                InstructionView::Stake {
                    amount: spec_le_u64(s, 1),
                    duration_selector: spec_le_u64(s, 9),
                },
            )
        } else {
            Err(StakeError::InvalidInstructionData)
        }
    } else if s[0] == TAG_WITHDRAW {
        if s.len() == 1 {
            Ok(InstructionView::Withdraw)
        } else {
            Err(StakeError::InvalidInstructionData)
        }
    } else {
        Err(StakeError::InvalidInstructionData)
    }
}

/// Parses an instruction buffer into a typed operation, rejecting every
/// malformed buffer exactly as `spec_parse_instruction` says.
pub fn parse_instruction(data: &Vec<u8>) -> (r: Result<Instruction, StakeError>)
    ensures
        (match spec_parse_instruction(data@) {
            Ok(m) => r is Ok && r->Ok_0@ == m,
            Err(e) => r is Err && r->Err_0 == e,
        }),
{
    if data.len() == 0 {
        return Err(StakeError::InvalidInstructionData);
    }
    let tag = data[0];
    if tag == TAG_INITIALIZE {
        if data.len() != 1 + VAULT_ADDRESS_LEN {
            return Err(StakeError::InvalidInstructionData);
        }
        let vault_address = copy_byte_range(data, 1, data.len());
        Ok(Instruction::Initialize { vault_address })
    } else if tag == TAG_STAKE {
        if data.len() != 17 {
            return Err(StakeError::InvalidInstructionData);
        }
        let amount = read_u64_le(data, 1);
        let duration_selector = read_u64_le(data, 9);
        Ok(Instruction::Stake { amount, duration_selector })
    } else if tag == TAG_WITHDRAW {
        if data.len() != 1 {
            return Err(StakeError::InvalidInstructionData);
        }
        Ok(Instruction::Withdraw)
    } else {
        Err(StakeError::InvalidInstructionData)
    }
}

} // verus!
