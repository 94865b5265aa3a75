//! Fixed-layout binary codec for the two persisted record types.
//!
//! Both records occupy exactly 32 bytes.  A `StakeData` record is four
//! little-endian 64-bit fields at fixed offsets, with no padding and no
//! version tag; a `VaultDescriptor` is the raw 32-byte vault address.
//! Decoding fails only when the buffer does not have the fixed size; a
//! buffer of all zero bytes decodes to the well-formed zero-valued record
//! that stands for "not yet used".

use vstd::prelude::*;

use crate::error::StakeError;

verus! {

/// Size in bytes of an encoded `StakeData` record.
pub const STAKE_RECORD_LEN: usize = 32;

/// Size in bytes of an encoded `VaultDescriptor` record.
pub const VAULT_RECORD_LEN: usize = 32;

/// Size in bytes of a vault address.
pub const VAULT_ADDRESS_LEN: usize = 32;

/// A user's staking position, as persisted in the user's record account.
///
/// `staked_amount == 0` means the record is unused (no active stake); the
/// remaining fields are meaningful only while `staked_amount > 0`.
#[derive(Clone, Copy, Debug, PartialEq, Eq, Structural)]
pub struct StakeData {
    /// Quantity currently locked; 0 means no active stake.
    pub staked_amount: u64,
    /// Timestamp (seconds) at which the current stake began.
    pub start_time: u64,
    /// Timestamp (seconds) after which withdrawal is permitted.
    pub end_time: u64,
    /// Rate selected from the schedule when the stake was placed.
    pub reward_rate: u64,
}

/// The token vault this program instance controls, as persisted in the
/// vault record account.  Written exactly once, at initialization; an
/// all-zero address stands for "not yet initialized".
pub struct VaultDescriptor {
    /// Opaque 32-byte identifier of the custody account.
    pub vault_address: Vec<u8>,
}

impl VaultDescriptor {
    /// The descriptor carries a full-size address.
    pub open spec fn wf(&self) -> bool {
        self.vault_address@.len() == VAULT_ADDRESS_LEN
    }
}

/// The eight bytes of `v`, least significant first.
pub open spec fn spec_u64_le(v: u64) -> Seq<u8> {
    seq![
        (v & 0xff) as u8,
        ((v >> 8u64) & 0xff) as u8,
        ((v >> 16u64) & 0xff) as u8,
        ((v >> 24u64) & 0xff) as u8,
        ((v >> 32u64) & 0xff) as u8,
        ((v >> 40u64) & 0xff) as u8,
        ((v >> 48u64) & 0xff) as u8,
        ((v >> 56u64) & 0xff) as u8,
    ]
}

/// The value whose little-endian bytes are `b0` (least significant)
/// through `b7` (most significant).
pub open spec fn spec_le_u64_bytes(
    b0: u8, b1: u8, b2: u8, b3: u8, b4: u8, b5: u8, b6: u8, b7: u8,
) -> u64 {
    (b0 as u64)
    | ((b1 as u64) << 8u64)
    | ((b2 as u64) << 16u64)
    | ((b3 as u64) << 24u64)
    | ((b4 as u64) << 32u64)
    | ((b5 as u64) << 40u64)
    | ((b6 as u64) << 48u64)
    | ((b7 as u64) << 56u64)
}

/// The value of the eight little-endian bytes of `s` starting at `off`.
pub open spec fn spec_le_u64(s: Seq<u8>, off: int) -> u64
    recommends
        0 <= off,
        off + 8 <= s.len(),
{
    spec_le_u64_bytes(
        s[off], s[off + 1], s[off + 2], s[off + 3],
        s[off + 4], s[off + 5], s[off + 6], s[off + 7],
    )
}

/// Reading back the eight little-endian bytes of `v` gives `v` again.
pub proof fn lemma_u64_le_round_trip(v: u64)
    ensures
        spec_le_u64(spec_u64_le(v), 0) == v,
{
    assert(spec_le_u64_bytes(
        (v & 0xff) as u8,
        ((v >> 8u64) & 0xff) as u8,
        ((v >> 16u64) & 0xff) as u8,
        ((v >> 24u64) & 0xff) as u8,
        ((v >> 32u64) & 0xff) as u8,
        ((v >> 40u64) & 0xff) as u8,
        ((v >> 48u64) & 0xff) as u8,
        ((v >> 56u64) & 0xff) as u8,
    ) == v) by (bit_vector);
}

/// Appends the eight little-endian bytes of `v` to `out`.
pub fn encode_u64_le(v: u64, out: &mut Vec<u8>)
    ensures
        final(out)@ == old(out)@ + spec_u64_le(v),
{
    out.push((v & 0xff) as u8);
    out.push(((v >> 8u64) & 0xff) as u8);
    out.push(((v >> 16u64) & 0xff) as u8);
    out.push(((v >> 24u64) & 0xff) as u8);
    out.push(((v >> 32u64) & 0xff) as u8);
    out.push(((v >> 40u64) & 0xff) as u8);
    out.push(((v >> 48u64) & 0xff) as u8);
    out.push(((v >> 56u64) & 0xff) as u8);
    assert(out@ =~= old(out)@ + spec_u64_le(v));
}

/// Reads the little-endian 64-bit field of `bytes` at offset `off`.
pub fn read_u64_le(bytes: &Vec<u8>, off: usize) -> (r: u64)
    requires
        off + 8 <= bytes@.len(),
    ensures
        r == spec_le_u64(bytes@, off as int),
{
    let n: usize = bytes.len();
    assert(off + 8 <= n);
    (bytes[off] as u64)
    | ((bytes[off + 1] as u64) << 8u64)
    | ((bytes[off + 2] as u64) << 16u64)
    | ((bytes[off + 3] as u64) << 24u64)
    | ((bytes[off + 4] as u64) << 32u64)
    | ((bytes[off + 5] as u64) << 40u64)
    | ((bytes[off + 6] as u64) << 48u64)
    | ((bytes[off + 7] as u64) << 56u64)
}

/// The 32-byte encoding of `r`: amount, start, end, rate, little-endian.
pub open spec fn spec_encode_stake_data(r: StakeData) -> Seq<u8> {
    spec_u64_le(r.staked_amount) + spec_u64_le(r.start_time) + spec_u64_le(r.end_time)
        + spec_u64_le(r.reward_rate)
}

/// The record denoted by a 32-byte buffer, or `DecodeError` for a buffer
/// of any other size.
pub open spec fn spec_decode_stake_data(s: Seq<u8>) -> Result<StakeData, StakeError> {
    if s.len() == STAKE_RECORD_LEN {
        Ok(
            StakeData {
                staked_amount: spec_le_u64(s, 0),
                start_time: spec_le_u64(s, 8),
                end_time: spec_le_u64(s, 16),
                reward_rate: spec_le_u64(s, 24),
            },
        )
    } else {
        Err(StakeError::DecodeError)
    }
}

/// Codec round trip: every record decodes from its own encoding.
pub proof fn lemma_stake_data_round_trip(r: StakeData)
    ensures
        spec_encode_stake_data(r).len() == STAKE_RECORD_LEN,
        spec_decode_stake_data(spec_encode_stake_data(r)) == Ok::<StakeData, StakeError>(r),
{
    let s = spec_encode_stake_data(r);
    lemma_u64_le_round_trip(r.staked_amount);
    lemma_u64_le_round_trip(r.start_time);
    lemma_u64_le_round_trip(r.end_time);
    lemma_u64_le_round_trip(r.reward_rate);
    assert(spec_le_u64(s, 0) == spec_le_u64(spec_u64_le(r.staked_amount), 0));
    assert(spec_le_u64(s, 8) == spec_le_u64(spec_u64_le(r.start_time), 0));
    assert(spec_le_u64(s, 16) == spec_le_u64(spec_u64_le(r.end_time), 0));
    assert(spec_le_u64(s, 24) == spec_le_u64(spec_u64_le(r.reward_rate), 0));
}

/// Encodes `r` into its fixed 32-byte layout.
pub fn encode_stake_data(r: &StakeData) -> (out: Vec<u8>)
    ensures
        out@ == spec_encode_stake_data(*r),
        out@.len() == STAKE_RECORD_LEN,
{
    let mut out: Vec<u8> = Vec::new();
    encode_u64_le(r.staked_amount, &mut out);
    encode_u64_le(r.start_time, &mut out);
    encode_u64_le(r.end_time, &mut out);
    encode_u64_le(r.reward_rate, &mut out);
    assert(out@ =~= spec_encode_stake_data(*r));
    out
}

/// Decodes a stake record from its fixed 32-byte layout; fails with
/// `DecodeError` on a buffer of any other size.
pub fn decode_stake_data(bytes: &Vec<u8>) -> (r: Result<StakeData, StakeError>)
    ensures
        r == spec_decode_stake_data(bytes@),
{
    if bytes.len() != STAKE_RECORD_LEN {
        return Err(StakeError::DecodeError);
    }
    Ok(
        StakeData {
            staked_amount: read_u64_le(bytes, 0),
            start_time: read_u64_le(bytes, 8),
            end_time: read_u64_le(bytes, 16),
            reward_rate: read_u64_le(bytes, 24),
        },
    )
}

/// A fresh copy of the bytes of `src` from `start` (inclusive) to `end`
/// (exclusive).
pub fn copy_byte_range(src: &Vec<u8>, start: usize, end: usize) -> (r: Vec<u8>)
    requires
        start <= end <= src@.len(),
    ensures
        r@ == src@.subrange(start as int, end as int),
{
    let mut out: Vec<u8> = Vec::new();
    let mut i: usize = start;
    while i < end
        invariant
            start <= i <= end <= src@.len(),
            out@ == src@.subrange(start as int, i as int),
        decreases end - i,
    {
        out.push(src[i]);
        assert(out@ =~= src@.subrange(start as int, i + 1 as int));
        i = i + 1;
    }
    out
}

/// The 32-byte encoding of a vault descriptor: the address itself.
pub open spec fn spec_encode_vault_descriptor(d: VaultDescriptor) -> Seq<u8> {
    d.vault_address@
}

/// The vault address denoted by a 32-byte buffer, or `DecodeError` for a
/// buffer of any other size.
pub open spec fn spec_decode_vault_address(s: Seq<u8>) -> Result<Seq<u8>, StakeError> {
    if s.len() == VAULT_RECORD_LEN {
        Ok(s)
    } else {
        Err(StakeError::DecodeError)
    }
}

/// Codec round trip for the vault descriptor.
pub proof fn lemma_vault_descriptor_round_trip(d: VaultDescriptor)
    requires
        d.wf(),
    ensures
        spec_decode_vault_address(spec_encode_vault_descriptor(d))
            == Ok::<Seq<u8>, StakeError>(d.vault_address@),
{
}

/// Encodes `d` into its fixed 32-byte layout.
pub fn encode_vault_descriptor(d: &VaultDescriptor) -> (out: Vec<u8>)
    requires
        d.wf(),
    ensures
        out@ == spec_encode_vault_descriptor(*d),
        out@.len() == VAULT_RECORD_LEN,
{
    let out = copy_byte_range(&d.vault_address, 0, d.vault_address.len());
    assert(out@ =~= d.vault_address@);
    out
}

/// Decodes a vault descriptor from its fixed 32-byte layout; fails with
/// `DecodeError` on a buffer of any other size.
pub fn decode_vault_descriptor(bytes: &Vec<u8>) -> (r: Result<VaultDescriptor, StakeError>)
    ensures
        (match spec_decode_vault_address(bytes@) {
            Ok(addr) => r is Ok && r->Ok_0.vault_address@ == addr && r->Ok_0.wf(),
            Err(e) => r is Err && r->Err_0 == e,
        }),
{
    if bytes.len() != VAULT_RECORD_LEN {
        return Err(StakeError::DecodeError);
    }
    let addr = copy_byte_range(bytes, 0, bytes.len());
    assert(addr@ =~= bytes@);
    Ok(VaultDescriptor { vault_address: addr })
}

} // verus!
