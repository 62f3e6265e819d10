use vstd::prelude::*;

verus! {

/// The hash that identifies an account.
#[derive(Clone, Copy, Debug)]
pub struct AccountHash {
    pub bytes: [u8; 32],
}

/// The hash that identifies a stored contract (here: the token contract).
#[derive(Clone, Copy, Debug)]
pub struct ContractHash {
    pub bytes: [u8; 32],
}

impl View for AccountHash {
    type V = Seq<u8>;

    open spec fn view(&self) -> Seq<u8> {
        self.bytes@
    }
}

impl View for ContractHash {
    type V = Seq<u8>;

    open spec fn view(&self) -> Seq<u8> {
        self.bytes@
    }
}

/// Where tokens can be sent: an account, or a contract package by its hash.
#[derive(Clone, Copy, Debug)]
pub enum Key {
    Account(AccountHash),
    Hash([u8; 32]),
}

/// A key, by the bytes of the hash it holds.
pub enum KeyModel {
    Account(Seq<u8>),
    Hash(Seq<u8>),
}

impl View for Key {
    type V = KeyModel;

    open spec fn view(&self) -> KeyModel {
        match self {
            Key::Account(a) => KeyModel::Account(a@),
            Key::Hash(h) => KeyModel::Hash(h@),
        }
    }
}

/// Whether two 32-byte hashes are equal, byte by byte.
pub fn hash_bytes_equal(a: &[u8; 32], b: &[u8; 32]) -> (r: bool)
    ensures
        r == (a@ == b@),
{
    let mut i: usize = 0;
    while i < 32
        invariant
            i <= 32,
            a@.len() == 32,
            b@.len() == 32,
            forall|j: int| 0 <= j < i ==> a@[j] == b@[j],
        decreases 32 - i,
    {
        if a[i] != b[i] {
            return false;
        }
        i = i + 1;
    }
    assert(a@ =~= b@);
    true
}

impl AccountHash {
    /// Whether this is the same account as `other`.
    pub fn same_as(&self, other: &AccountHash) -> (r: bool)
        ensures
            r == (self@ == other@),
    {
        hash_bytes_equal(&self.bytes, &other.bytes)
    }
}

} // verus!
