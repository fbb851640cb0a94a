//! What a Geyser plugin is told of each account.

use crate::append_vec::StoredAccountMeta;
use crate::pubkey::Pubkey;
use vstd::prelude::*;

verus! {

/// The slot that every update is reported for: the records of a snapshot do
/// not carry the slot in which they were written.
pub const UPDATE_SLOT: u64 = 0;

/// One account update. The updates of a snapshot are no start-up updates,
/// and none names a transaction.
#[derive(Clone, Copy, Debug)]
pub struct AccountUpdate<'a> {
    pub pubkey: Pubkey,
    pub lamports: u64,
    pub owner: Pubkey,
    pub executable: bool,
    pub rent_epoch: u64,
    pub data: &'a [u8],
    pub write_version: u64,
    pub slot: u64,
    pub is_startup: bool,
}

/// The update that reports a record.
pub fn update_of<'a>(account: &StoredAccountMeta<'a>) -> (update: AccountUpdate<'a>)
    ensures
        update.pubkey == account.meta.pubkey,
        update.lamports == account.account_meta.lamports,
        update.owner == account.account_meta.owner,
        update.executable == account.account_meta.executable,
        update.rent_epoch == account.account_meta.rent_epoch,
        update.data@ == account.data@,
        update.write_version == account.meta.write_version,
        update.slot == UPDATE_SLOT,
        !update.is_startup,
{
    AccountUpdate {
        pubkey: account.meta.pubkey,
        lamports: account.account_meta.lamports,
        owner: account.account_meta.owner,
        executable: account.account_meta.executable,
        rent_epoch: account.account_meta.rent_epoch,
        data: account.data,
        write_version: account.meta.write_version,
        slot: UPDATE_SLOT,
        is_startup: false,
    }
}

} // verus!
