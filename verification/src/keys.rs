//! Ledger account identities.
//!
//! An identity on the host ledger is a fixed 32-byte value. The vault's
//! logic only ever stores such a value and compares two of them for
//! equality; it never interprets the bytes.

use vstd::prelude::*;

verus! {

/// The number of bytes in a ledger account identity.
pub const KEY_LEN: usize = 32;

/// A ledger account identity: exactly 32 opaque bytes.
pub struct Pubkey {
    bytes: Vec<u8>,
}

impl View for Pubkey {
    type V = Seq<u8>;

    closed spec fn view(&self) -> Seq<u8> {
        self.bytes@
    }
}

impl Pubkey {
    /// A key is well formed when it holds exactly 32 bytes. Every key this
    /// module hands out satisfies this.
    pub open spec fn wf(&self) -> bool {
        self@.len() == KEY_LEN
    }

    /// Builds a key from raw bytes; rejects any slice that is not exactly
    /// 32 bytes long.
    pub fn from_bytes(bytes: Vec<u8>) -> (r: Option<Pubkey>)
        ensures
            r is Some <==> bytes@.len() == KEY_LEN,
            r matches Some(k) ==> k.wf() && k@ == bytes@,
    {
        if bytes.len() == KEY_LEN {
            Some(Pubkey { bytes })
        } else {
            None
        }
    }

    /// Hands the raw bytes back out.
    pub fn as_bytes(&self) -> (r: &Vec<u8>)
        ensures
            r@ == self@,
    {
        &self.bytes
    }

    /// Byte-for-byte equality of two identities.
    pub fn eq_key(&self, other: &Pubkey) -> (r: bool)
        ensures
            r == (self@ == other@),
    {
        if self.bytes.len() != other.bytes.len() {
            return false;
        }
        let n = self.bytes.len();
        let mut i: usize = 0;
        while i < n
            invariant
                n == self@.len(),
                n == other@.len(),
                i <= n,
                forall|j: int| 0 <= j < i ==> self@[j] == other@[j],
            decreases n - i,
        {
            if self.bytes[i] != other.bytes[i] {
                return false;
            }
            i = i + 1;
        }
        proof {
            assert(self@ =~= other@);
        }
        true
    }
}

impl Clone for Pubkey {
    /// A cloned key denotes the same identity.
    fn clone(&self) -> (r: Self)
        ensures
            r@ == self@,
    {
        let mut bytes: Vec<u8> = Vec::new();
        let n = self.bytes.len();
        let mut i: usize = 0;
        while i < n
            invariant
                n == self@.len(),
                i <= n,
                bytes@ == self@.subrange(0, i as int),
            decreases n - i,
        {
            bytes.push(self.bytes[i]);
            i = i + 1;
        }
        proof {
            assert(bytes@ =~= self@);
        }
        Pubkey { bytes }
    }
}

} // verus!
