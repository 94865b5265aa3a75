//! The authorization checks the state machine consults before any
//! mutation.
//!
//! All three checks of the design are pure predicates over values the
//! host already supplied.  The ownership check compares the persisted
//! record's declared owner with the executing program's identity, byte by
//! byte.  The signer check and the storage-exemption check are the host's
//! own verdicts, handed in as booleans and tested by the state machine
//! directly; a missing signature or unfunded storage fails closed there.
//! This module also recognizes the all-zero buffer that marks a record as
//! never used.

use vstd::prelude::*;

verus! {

/// Whether every byte of `s` is zero: the persisted shape of a record
/// whose storage was allocated but never written.
pub open spec fn spec_all_zero(s: Seq<u8>) -> bool {
    forall|i: int| 0 <= i < s.len() ==> s[i] == 0
}

/// Tests whether `v` is all zero bytes.
pub fn bytes_all_zero(v: &Vec<u8>) -> (r: bool)
    ensures
        r == spec_all_zero(v@),
{
    let n = v.len();
    let mut i: usize = 0;
    while i < n
        invariant
            i <= n == v@.len(),
            forall|j: int| 0 <= j < i ==> v@[j] == 0,
        decreases n - i,
    {
        if v[i] != 0 {
            return false;
        }
        i = i + 1;
    }
    true
}

/// The ownership check: the record's declared owner must be the program
/// itself.
pub fn owner_matches(record_owner: &Vec<u8>, program_id: &Vec<u8>) -> (r: bool)
    ensures
        r == (record_owner@ == program_id@),
{
    let n = record_owner.len();
    if n != program_id.len() {
        assert(record_owner@ != program_id@);
        return false;
    }
    let mut i: usize = 0;
    while i < n
        invariant
            i <= n == record_owner@.len() == program_id@.len(),
            forall|j: int| 0 <= j < i ==> record_owner@[j] == program_id@[j],
        decreases n - i,
    {
        if record_owner[i] != program_id[i] {
            assert(record_owner@[i as int] != program_id@[i as int]);
            return false;
        }
        i = i + 1;
    }
    assert(record_owner@ =~= program_id@);
    true
}

} // verus!
