//! Account addresses and hashes: 32 opaque bytes each.

use crate::bytes::bytes_eq;
use vstd::prelude::*;
use vstd::std_specs::cmp::PartialEqSpecImpl;

verus! {

/// The address of an account.
#[derive(Clone, Copy, Debug)]
pub struct Pubkey(pub [u8; 32]);

/// A 32-byte digest.
#[derive(Clone, Copy, Debug)]
pub struct Hash(pub [u8; 32]);

impl View for Pubkey {
    type V = Seq<u8>;

    open spec fn view(&self) -> Seq<u8> {
        self.0@
    }
}

impl View for Hash {
    type V = Seq<u8>;

    open spec fn view(&self) -> Seq<u8> {
        self.0@
    }
}

/// The text that the Solana SDK prints for an address: the base58 form of its
/// 32 bytes in the Bitcoin alphabet.
pub uninterp spec fn base58_text(key: Seq<u8>) -> Seq<char>;

/// Calls `Pubkey::to_string` of `solana_program`, which formats the key with
/// `bs58::encode(..).into_string()`. Taken on trust: the text depends on the
/// 32 bytes alone.
#[verifier::external_body]
fn encode_base58(key: &[u8; 32]) -> (text: String)
    ensures
        text@ == base58_text(key@),
{
    solana_program::pubkey::Pubkey::new_from_array(*key).to_string()
}

impl Pubkey {
    pub fn new_from_array(bytes: [u8; 32]) -> (key: Pubkey)
        ensures
            key@ == bytes@,
    {
        Pubkey(bytes)
    }

    pub fn to_bytes(&self) -> (bytes: [u8; 32])
        ensures
            bytes@ == self@,
    {
        self.0
    }

    pub fn as_ref(&self) -> (bytes: &[u8])
        ensures
            bytes@ == self@,
    {
        self.0.as_slice()
    }

    /// The base58 text of the address.
    pub fn to_string(&self) -> (text: String)
        ensures
            text@ == base58_text(self@),
    {
        encode_base58(&self.0)
    }
}

impl PartialEq for Pubkey {
    fn eq(&self, other: &Pubkey) -> (same: bool) {
        bytes_eq(self.0.as_slice(), other.0.as_slice())
    }
}

impl PartialEqSpecImpl for Pubkey {
    open spec fn obeys_eq_spec() -> bool {
        true
    }

    open spec fn eq_spec(&self, other: &Pubkey) -> bool {
        self@ == other@
    }
}

impl Hash {
    pub fn new_from_array(bytes: [u8; 32]) -> (hash: Hash)
        ensures
            hash@ == bytes@,
    {
        Hash(bytes)
    }

    pub fn to_bytes(&self) -> (bytes: [u8; 32])
        ensures
            bytes@ == self@,
    {
        self.0
    }

    pub fn as_ref(&self) -> (bytes: &[u8])
        ensures
            bytes@ == self@,
    {
        self.0.as_slice()
    }
}

impl PartialEq for Hash {
    fn eq(&self, other: &Hash) -> (same: bool) {
        bytes_eq(self.0.as_slice(), other.0.as_slice())
    }
}

impl PartialEqSpecImpl for Hash {
    open spec fn obeys_eq_spec() -> bool {
        true
    }

    open spec fn eq_spec(&self, other: &Hash) -> bool {
        self@ == other@
    }
}

} // verus!
