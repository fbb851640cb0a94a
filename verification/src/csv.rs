//! The columns of the CSV dump: one line for each account.

use crate::append_vec::StoredAccountMeta;
use crate::pubkey::base58_text;
use vstd::prelude::*;

verus! {

/// The names of the columns, in their order.
pub const COLUMNS: [&'static str; 4] = ["pubkey", "owner", "data_len", "lamports"];

/// One line of the dump.
#[derive(Debug)]
pub struct Record {
    pub pubkey: String,
    pub owner: String,
    pub data_len: u64,
    pub lamports: u64,
}

/// The line of an account: its address and its owner in base58, the length
/// of its data and its balance.
pub fn record_of(account: &StoredAccountMeta) -> (record: Record)
    ensures
        record.pubkey@ == base58_text(account.meta.pubkey@),
        record.owner@ == base58_text(account.account_meta.owner@),
        record.data_len == account.meta.data_len,
        record.lamports == account.account_meta.lamports,
{
    Record {
        pubkey: account.meta.pubkey.to_string(),
        owner: account.account_meta.owner.to_string(),
        data_len: account.meta.data_len,
        lamports: account.account_meta.lamports,
    }
}

} // verus!
