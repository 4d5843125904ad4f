//! A 32-byte account key, held as plain bytes.

use crate::bytes::bytes_eq;
use vstd::prelude::*;

verus! {

/// A 32-byte public key identifying an account.
#[derive(Debug)]
pub struct Pubkey {
    pub bytes: Vec<u8>,
}

impl Pubkey {
    /// A key holds exactly 32 bytes.
    pub open spec fn wf(self) -> bool {
        self.bytes@.len() == 32
    }

    /// The key whose 32 bytes all hold `b`.
    pub fn new_filled(b: u8) -> (r: Pubkey)
        ensures
            r.wf(),
            r.bytes@ == Seq::new(32, |i: int| b),
    {
        let mut bytes: Vec<u8> = Vec::new();
        let mut k: usize = 0;
        while k < 32
            invariant
                k <= 32,
                bytes@.len() == k,
                forall|j: int| 0 <= j < k ==> bytes@[j] == b,
            decreases 32 - k,
        {
            bytes.push(b);
            k = k + 1;
        }
        proof {
            assert(bytes@ =~= Seq::new(32, |i: int| b));
        }
        Pubkey { bytes }
    }

    /// A key made from exactly 32 bytes; rejects any other length.
    pub fn from_bytes(bytes: Vec<u8>) -> (r: Option<Pubkey>)
        ensures
            r is Some <==> bytes@.len() == 32,
            r is Some ==> r->0.wf() && r->0.bytes@ == bytes@,
    {
        if bytes.len() == 32 {
            Some(Pubkey { bytes })
        } else {
            None
        }
    }

    /// Whether the two keys hold the same bytes.
    pub fn key_eq(&self, other: &Pubkey) -> (r: bool)
        ensures
            r == (self.bytes@ == other.bytes@),
    {
        bytes_eq(&self.bytes, &other.bytes)
    }
}

impl Default for Pubkey {
    /// The all-zero key.
    fn default() -> (r: Pubkey)
        ensures
            r.wf(),
            r.bytes@ == Seq::new(32, |i: int| 0u8),
    {
        Pubkey::new_filled(0)
    }
}

} // verus!
