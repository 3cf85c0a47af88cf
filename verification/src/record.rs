//! The persisted wire form of the vault state record.
//!
//! A `VaultState` record occupies exactly 40 bytes in account storage: an
//! 8-byte record-kind tag followed by the 32-byte authority identity. The
//! tag lets a reader tell a vault state record apart from unrelated data
//! at the same size.

use vstd::prelude::*;
use crate::keys::Pubkey;
use crate::keys::KEY_LEN;
use crate::vault::VaultState;
use crate::vault::VaultStateV;

verus! {

/// Total size in bytes of a persisted vault state record.
pub const STATE_RECORD_LEN: usize = 40;

/// The 8-byte record-kind tag that opens every persisted vault state
/// record (the ASCII bytes of "VLTSTATE").
pub open spec fn state_record_tag() -> Seq<u8> {
    seq![86u8, 76u8, 84u8, 83u8, 84u8, 65u8, 84u8, 69u8]
}

/// The full 40-byte wire form of a vault state record: tag, then the
/// authority's 32 bytes.
pub open spec fn state_record_bytes(s: VaultStateV) -> Seq<u8> {
    state_record_tag() + s.authority
}

/// Serializes a vault state record into its 40-byte wire form.
pub fn to_record_bytes(state: &VaultState) -> (r: Vec<u8>)
    requires
        state.wf(),
    ensures
        r@ == state_record_bytes(state@),
        r@.len() == STATE_RECORD_LEN,
{
    let mut r: Vec<u8> = Vec::new();
    r.push(86u8);
    r.push(76u8);
    r.push(84u8);
    r.push(83u8);
    r.push(84u8);
    r.push(65u8);
    r.push(84u8);
    r.push(69u8);
    proof {
        assert(r@ =~= state_record_tag());
    }
    let key = state.authority.as_bytes();
    let n = key.len();
    let mut i: usize = 0;
    while i < n
        invariant
            n == key@.len(),
            key@ == state.authority@,
            i <= n,
            r@ == state_record_tag() + state.authority@.subrange(0, i as int),
        decreases n - i,
    {
        r.push(key[i]);
        proof {
            assert(r@ =~= state_record_tag() + state.authority@.subrange(0, i as int + 1));
        }
        i = i + 1;
    }
    proof {
        assert(state.authority@.subrange(0, n as int) =~= state.authority@);
    }
    r
}

/// Parses a 40-byte wire form back into a vault state record. Returns
/// `None` — and only then — when the input is not exactly 40 bytes long or
/// does not open with the record-kind tag.
pub fn from_record_bytes(bytes: &Vec<u8>) -> (r: Option<VaultState>)
    ensures
        r is Some <==> (bytes@.len() == STATE_RECORD_LEN
            && bytes@.subrange(0, 8) == state_record_tag()),
        r matches Some(s) ==> s.wf()
            && s@.authority == bytes@.subrange(8, STATE_RECORD_LEN as int)
            && state_record_bytes(s@) == bytes@,
{
    if bytes.len() != STATE_RECORD_LEN {
        return None;
    }
    let tag_ok = bytes[0] == 86 && bytes[1] == 76 && bytes[2] == 84 && bytes[3] == 83
        && bytes[4] == 84 && bytes[5] == 65 && bytes[6] == 84 && bytes[7] == 69;
    if !tag_ok {
        proof {
            assert(bytes@.subrange(0, 8) != state_record_tag()) by {
                if bytes@.subrange(0, 8) == state_record_tag() {
                    assert(bytes@[0] == state_record_tag()[0]);
                    assert(bytes@[1] == state_record_tag()[1]);
                    assert(bytes@[2] == state_record_tag()[2]);
                    assert(bytes@[3] == state_record_tag()[3]);
                    assert(bytes@[4] == state_record_tag()[4]);
                    assert(bytes@[5] == state_record_tag()[5]);
                    assert(bytes@[6] == state_record_tag()[6]);
                    assert(bytes@[7] == state_record_tag()[7]);
                }
            }
        }
        return None;
    }
    proof {
        assert(bytes@.subrange(0, 8) =~= state_record_tag());
    }
    let mut key_bytes: Vec<u8> = Vec::new();
    let mut i: usize = 8;
    while i < STATE_RECORD_LEN
        invariant
            8 <= i <= STATE_RECORD_LEN,
            bytes@.len() == STATE_RECORD_LEN,
            key_bytes@ == bytes@.subrange(8, i as int),
        decreases STATE_RECORD_LEN - i,
    {
        key_bytes.push(bytes[i]);
        proof {
            assert(key_bytes@ =~= bytes@.subrange(8, i as int + 1));
        }
        i = i + 1;
    }
    proof {
        assert(key_bytes@.len() == KEY_LEN);
    }
    match Pubkey::from_bytes(key_bytes) {
        Some(authority) => {
            let state = VaultState { authority };
            proof {
                assert(state_record_bytes(state@) =~= bytes@);
            }
            Some(state)
        },
        None => None,
    }
}

} // verus!
