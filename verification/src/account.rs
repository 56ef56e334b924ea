//! The account model: an externally owned record with a balance, a data
//! buffer, an owner identity and a per-invocation writable flag.

use vstd::prelude::*;

verus! {

/// An identity on the ledger: the raw bytes of an address or authority key.
pub struct AuthorityId {
    pub bytes: Vec<u8>,
}

impl View for AuthorityId {
    type V = Seq<u8>;

    open spec fn view(&self) -> Seq<u8> {
        self.bytes@
    }
}

impl AuthorityId {
    /// Byte-for-byte equality of two identities.
    pub fn eq_id(&self, other: &AuthorityId) -> (r: bool)
        ensures
            r == (self@ == other@),
    {
        if self.bytes.len() != other.bytes.len() {
            return false;
        }
        let n = self.bytes.len();
        let mut i: usize = 0;
        while i < n
            invariant
                0 <= i <= n,
                n == self@.len(),
                n == other@.len(),
                forall|j: int| 0 <= j < i ==> self@[j] == other@[j],
            decreases n - i,
        {
            if self.bytes[i] != other.bytes[i] {
                return false;
            }
            i = i + 1;
        }
        proof {
            assert(self@ =~= other@);
        }
        true
    }
}

/// An external mutable record: balance in the smallest native unit, an
/// application data buffer, the authority permitted to mutate it, and the
/// write permission granted by the caller for this invocation.
pub struct Account {
    pub address: AuthorityId,
    pub balance: u64,
    pub data: Vec<u8>,
    pub owner: AuthorityId,
    pub is_writable: bool,
}

/// The two accounts agree on everything observable.
pub open spec fn same_account(a: Account, b: Account) -> bool {
    &&& a.address@ == b.address@
    &&& a.balance == b.balance
    &&& a.data@ == b.data@
    &&& a.owner@ == b.owner@
    &&& a.is_writable == b.is_writable
}

/// `after` is `before` with its balance replaced by `balance` and its data
/// buffer replaced by `data`; every other field is untouched.
pub open spec fn adjusted_account(before: Account, after: Account, balance: int, data: Seq<u8>) -> bool {
    &&& after.address@ == before.address@
    &&& after.balance == balance
    &&& after.data@ == data
    &&& after.owner@ == before.owner@
    &&& after.is_writable == before.is_writable
}

/// A fresh byte-for-byte copy of a buffer.
pub fn copy_bytes(src: &Vec<u8>) -> (r: Vec<u8>)
    ensures
        r@ == src@,
{
    let n = src.len();
    let mut out: Vec<u8> = Vec::new();
    let mut i: usize = 0;
    while i < n
        invariant
            0 <= i <= n,
            n == src@.len(),
            out@ =~= src@.subrange(0, i as int),
        decreases n - i,
    {
        out.push(src[i]);
        i = i + 1;
    }
    proof {
        assert(out@ =~= src@);
    }
    out
}

} // verus!
