//! Accounts of the Metaplex token-metadata program: their layout, and how a
//! metadata account is decoded.
//!
//! A metadata account starts with one byte that tells the kind of account.
//! Behind it lies the metadata record, which every version of the program
//! writes, and then two extensions that later versions added. An account
//! written by an earlier version ends before them.

use crate::pubkey::Pubkey;
use crate::wire::{
    read_bool, read_key, read_option_u8, read_string, read_u16, read_u32, read_u64, read_u8,
    take_bool, take_key, take_option_u8, take_string, take_u16, take_u32, take_u64, take_u8,
};
use vstd::prelude::*;

verus! {

/// `metaqbxxUerdq28cj1RbAWkYQm3ybzjb6a8bt518x1s`
pub const ID: [u8; 32] = [
    11, 112, 101, 177, 227, 209, 124, 69, 56, 157, 82, 127, 107, 4, 195, 205, 88, 184, 108, 115,
    26, 160, 253, 181, 73, 182, 209, 188, 3, 248, 41, 70,
];

/// The address of the token-metadata program.
pub fn id() -> (key: Pubkey)
    ensures
        key@ == ID@,
{
    Pubkey(ID)
}

/// Whether `owner` is the token-metadata program.
pub fn is_metadata_program(owner: &Pubkey) -> (b: bool)
    ensures
        b == (owner@ == ID@),
{
    *owner == Pubkey(ID)
}

/// The kind of a token-metadata account, in the order of the tag byte.
#[derive(Clone, Copy, Debug, PartialEq, Eq, Structural)]
pub enum AccountKey {
    Uninitialized,
    EditionV1,
    MasterEditionV1,
    ReservationListV1,
    MetadataV1,
    ReservationListV2,
    MasterEditionV2,
    EditionMarker,
    UseAuthorityRecord,
    CollectionAuthorityRecord,
}

#[derive(Debug)]
pub struct Metadata {
    pub update_authority: Pubkey,
    pub mint: Pubkey,
    pub data: Data,
    pub primary_sale_happened: bool,
    pub is_mutable: bool,
}

/// The first extension of the metadata record.
#[derive(Clone, Copy, Debug, PartialEq, Eq, Structural)]
pub struct MetadataExt {
    pub edition_nonce: Option<u8>,
}

/// The second extension of the metadata record.
#[derive(Clone, Copy, Debug)]
pub struct MetadataExtV1_2 {
    pub token_standard: Option<u8>,
    pub collection: Option<Collection>,
    pub uses: Option<Uses>,
}

#[derive(Debug)]
pub struct Data {
    pub name: String,
    pub symbol: String,
    pub uri: String,
    pub seller_fee_basis_points: u16,
    pub creators: Option<Vec<Creator>>,
}

#[derive(Debug)]
pub struct DataV2 {
    pub name: String,
    pub symbol: String,
    pub uri: String,
    pub seller_fee_basis_points: u16,
    pub creators: Option<Vec<Creator>>,
    pub collection: Option<Collection>,
    pub uses: Option<Uses>,
}

#[derive(Clone, Copy, Debug)]
pub struct Creator {
    pub address: Pubkey,
    pub verified: bool,
    pub share: u8,
}

#[derive(Clone, Copy, Debug)]
pub struct Collection {
    pub verified: bool,
    pub key: Pubkey,
}

#[derive(Clone, Copy, Debug, PartialEq, Eq, Structural)]
pub struct Uses {
    pub use_method: u8,
    pub remaining: u64,
    pub total: u64,
}

#[derive(Clone, Copy, Debug, PartialEq, Eq, Structural)]
pub enum CollectionDetails {
    V1 { size: u64 },
}

pub struct CreatorView {
    pub address: Seq<u8>,
    pub verified: bool,
    pub share: u8,
}

pub struct CollectionView {
    pub verified: bool,
    pub key: Seq<u8>,
}

pub struct DataView {
    pub name: Seq<char>,
    pub symbol: Seq<char>,
    pub uri: Seq<char>,
    pub seller_fee_basis_points: u16,
    pub creators: Option<Seq<CreatorView>>,
}

pub struct MetadataView {
    pub update_authority: Seq<u8>,
    pub mint: Seq<u8>,
    pub data: DataView,
    pub primary_sale_happened: bool,
    pub is_mutable: bool,
}

pub struct MetadataExtV1_2View {
    pub token_standard: Option<u8>,
    pub collection: Option<CollectionView>,
    pub uses: Option<Uses>,
}

impl View for Creator {
    type V = CreatorView;

    open spec fn view(&self) -> CreatorView {
        CreatorView { address: self.address@, verified: self.verified, share: self.share }
    }
}

impl View for Collection {
    type V = CollectionView;

    open spec fn view(&self) -> CollectionView {
        CollectionView { verified: self.verified, key: self.key@ }
    }
}

/// The views of a list of creators.
pub open spec fn creator_views(creators: Seq<Creator>) -> Seq<CreatorView> {
    Seq::new(creators.len(), |i: int| creators[i]@)
}

impl View for Data {
    type V = DataView;

    open spec fn view(&self) -> DataView {
        DataView {
            name: self.name@,
            symbol: self.symbol@,
            uri: self.uri@,
            seller_fee_basis_points: self.seller_fee_basis_points,
            creators: match self.creators {
                Some(creators) => Some(creator_views(creators@)),
                None => None,
            },
        }
    }
}

impl View for Metadata {
    type V = MetadataView;

    open spec fn view(&self) -> MetadataView {
        MetadataView {
            update_authority: self.update_authority@,
            mint: self.mint@,
            data: self.data@,
            primary_sale_happened: self.primary_sale_happened,
            is_mutable: self.is_mutable,
        }
    }
}

impl View for MetadataExtV1_2 {
    type V = MetadataExtV1_2View;

    open spec fn view(&self) -> MetadataExtV1_2View {
        MetadataExtV1_2View {
            token_standard: self.token_standard,
            collection: match self.collection {
                Some(collection) => Some(collection@),
                None => None,
            },
            uses: self.uses,
        }
    }
}

/// The account kind that a tag byte stands for.
pub open spec fn account_key_of(tag: u8) -> Option<AccountKey> {
    if tag == 0 {
        Some(AccountKey::Uninitialized)
    } else if tag == 1 {
        Some(AccountKey::EditionV1)
    } else if tag == 2 {
        Some(AccountKey::MasterEditionV1)
    } else if tag == 3 {
        Some(AccountKey::ReservationListV1)
    } else if tag == 4 {
        Some(AccountKey::MetadataV1)
    } else if tag == 5 {
        Some(AccountKey::ReservationListV2)
    } else if tag == 6 {
        Some(AccountKey::MasterEditionV2)
    } else if tag == 7 {
        Some(AccountKey::EditionMarker)
    } else if tag == 8 {
        Some(AccountKey::UseAuthorityRecord)
    } else if tag == 9 {
        Some(AccountKey::CollectionAuthorityRecord)
    } else {
        None
    }
}

pub open spec fn take_account_key(s: Seq<u8>, at: int) -> Option<(AccountKey, int)> {
    match take_u8(s, at) {
        Some((tag, next)) => match account_key_of(tag) {
            Some(key) => Some((key, next)),
            None => None,
        },
        None => None,
    }
}

/// A creator: address, verified flag, share.
pub open spec fn take_creator(s: Seq<u8>, at: int) -> Option<(CreatorView, int)> {
    match take_key(s, at) {
        Some((address, p)) => match take_bool(s, p) {
            Some((verified, q)) => match take_u8(s, q) {
                Some((share, next)) => Some((CreatorView { address, verified, share }, next)),
                None => None,
            },
            None => None,
        },
        None => None,
    }
}

/// `n` creators, one behind the other.
pub open spec fn take_creators(s: Seq<u8>, at: int, n: nat) -> Option<(Seq<CreatorView>, int)>
    decreases n,
{
    if n == 0 {
        Some((Seq::empty(), at))
    } else {
        match take_creators(s, at, (n - 1) as nat) {
            Some((front, p)) => match take_creator(s, p) {
                Some((creator, next)) => Some((front.push(creator), next)),
                None => None,
            },
            None => None,
        }
    }
}

/// An optional list of creators: the flag, the number of creators as a 32-bit
/// integer, then the creators.
pub open spec fn take_creator_list(s: Seq<u8>, at: int) -> Option<
    (Option<Seq<CreatorView>>, int),
> {
    if 0 <= at < s.len() && s[at] == 0 {
        Some((None, at + 1))
    } else if 0 <= at < s.len() && s[at] == 1 {
        match take_u32(s, at + 1) {
            Some((n, p)) => match take_creators(s, p, n as nat) {
                Some((creators, next)) => Some((Some(creators), next)),
                None => None,
            },
            None => None,
        }
    } else {
        None
    }
}

/// Name, symbol, URI, fee and creators.
pub open spec fn take_data(s: Seq<u8>, at: int) -> Option<(DataView, int)> {
    match take_string(s, at) {
        Some((name, p1)) => match take_string(s, p1) {
            Some((symbol, p2)) => match take_string(s, p2) {
                Some((uri, p3)) => match take_u16(s, p3) {
                    Some((seller_fee_basis_points, p4)) => match take_creator_list(s, p4) {
                        Some((creators, next)) => Some(
                            (
                                DataView { name, symbol, uri, seller_fee_basis_points, creators },
                                next,
                            ),
                        ),
                        None => None,
                    },
                    None => None,
                },
                None => None,
            },
            None => None,
        },
        None => None,
    }
}

/// The metadata record: update authority, mint, data and two flags.
pub open spec fn take_metadata(s: Seq<u8>, at: int) -> Option<(MetadataView, int)> {
    match take_key(s, at) {
        Some((update_authority, p1)) => match take_key(s, p1) {
            Some((mint, p2)) => match take_data(s, p2) {
                Some((data, p3)) => match take_bool(s, p3) {
                    Some((primary_sale_happened, p4)) => match take_bool(s, p4) {
                        Some((is_mutable, next)) => Some(
                            (
                                MetadataView {
                                    update_authority,
                                    mint,
                                    data,
                                    primary_sale_happened,
                                    is_mutable,
                                },
                                next,
                            ),
                        ),
                        None => None,
                    },
                    None => None,
                },
                None => None,
            },
            None => None,
        },
        None => None,
    }
}

/// The first extension: the edition nonce.
pub open spec fn take_metadata_ext(s: Seq<u8>, at: int) -> Option<(MetadataExt, int)> {
    match take_option_u8(s, at) {
        Some((edition_nonce, next)) => Some((MetadataExt { edition_nonce }, next)),
        None => None,
    }
}

pub open spec fn take_collection(s: Seq<u8>, at: int) -> Option<(Option<CollectionView>, int)> {
    if 0 <= at < s.len() && s[at] == 0 {
        Some((None, at + 1))
    } else if 0 <= at < s.len() && s[at] == 1 {
        match take_bool(s, at + 1) {
            Some((verified, p)) => match take_key(s, p) {
                Some((key, next)) => Some((Some(CollectionView { verified, key }), next)),
                None => None,
            },
            None => None,
        }
    } else {
        None
    }
}

pub open spec fn take_uses(s: Seq<u8>, at: int) -> Option<(Option<Uses>, int)> {
    if 0 <= at < s.len() && s[at] == 0 {
        Some((None, at + 1))
    } else if 0 <= at < s.len() && s[at] == 1 {
        match take_u8(s, at + 1) {
            Some((use_method, p)) => match take_u64(s, p) {
                Some((remaining, q)) => match take_u64(s, q) {
                    Some((total, next)) => Some((Some(Uses { use_method, remaining, total }), next)),
                    None => None,
                },
                None => None,
            },
            None => None,
        }
    } else {
        None
    }
}

/// The second extension: token standard, collection and uses.
pub open spec fn take_metadata_ext_v1_2(s: Seq<u8>, at: int) -> Option<
    (MetadataExtV1_2View, int),
> {
    match take_option_u8(s, at) {
        Some((token_standard, p1)) => match take_collection(s, p1) {
            Some((collection, p2)) => match take_uses(s, p2) {
                Some((uses, next)) => Some(
                    (MetadataExtV1_2View { token_standard, collection, uses }, next),
                ),
                None => None,
            },
            None => None,
        },
        None => None,
    }
}

/// What the data of an account of the token-metadata program holds.
#[derive(Debug)]
pub enum MetadataAccount {
    /// No metadata: the data is empty, starts with no known tag, or is an
    /// account of another kind.
    NotMetadata,
    /// A metadata account whose record cannot be decoded.
    Malformed,
    /// A metadata account, with as many of the extensions as could be
    /// decoded. The second is looked for only behind the first.
    Decoded { metadata: Metadata, ext: Option<MetadataExt>, ext_v1_2: Option<MetadataExtV1_2> },
}

pub enum MetadataAccountView {
    NotMetadata,
    Malformed,
    Decoded {
        metadata: MetadataView,
        ext: Option<MetadataExt>,
        ext_v1_2: Option<MetadataExtV1_2View>,
    },
}

impl View for MetadataAccount {
    type V = MetadataAccountView;

    open spec fn view(&self) -> MetadataAccountView {
        match self {
            MetadataAccount::NotMetadata => MetadataAccountView::NotMetadata,
            MetadataAccount::Malformed => MetadataAccountView::Malformed,
            MetadataAccount::Decoded { metadata, ext, ext_v1_2 } => MetadataAccountView::Decoded {
                metadata: metadata@,
                ext: *ext,
                ext_v1_2: match ext_v1_2 {
                    Some(x) => Some(x@),
                    None => None,
                },
            },
        }
    }
}

/// What the account data `s` holds.
pub open spec fn metadata_account(s: Seq<u8>) -> MetadataAccountView {
    match take_account_key(s, 0) {
        Some((key, p)) => if key == AccountKey::MetadataV1 {
            match take_metadata(s, p) {
                Some((metadata, q)) => match take_metadata_ext(s, q) {
                    Some((ext, r)) => MetadataAccountView::Decoded {
                        metadata,
                        ext: Some(ext),
                        ext_v1_2: match take_metadata_ext_v1_2(s, r) {
                            Some((x, _)) => Some(x),
                            None => None,
                        },
                    },
                    None => MetadataAccountView::Decoded { metadata, ext: None, ext_v1_2: None },
                },
                None => MetadataAccountView::Malformed,
            }
        } else {
            MetadataAccountView::NotMetadata
        },
        None => MetadataAccountView::NotMetadata,
    }
}

pub fn read_account_key(data: &[u8], at: usize) -> (r: Option<(AccountKey, usize)>)
    ensures
        r is Some <==> take_account_key(data@, at as int) is Some,
        r matches Some((v, next)) ==> take_account_key(data@, at as int) == Some((v, next as int)),
{
    match read_u8(data, at) {
        None => None,
        Some((tag, next)) => {
            let key = if tag == 0 {
                AccountKey::Uninitialized
            } else if tag == 1 {
                AccountKey::EditionV1
            } else if tag == 2 {
                AccountKey::MasterEditionV1
            } else if tag == 3 {
                AccountKey::ReservationListV1
            } else if tag == 4 {
                AccountKey::MetadataV1
            } else if tag == 5 {
                AccountKey::ReservationListV2
            } else if tag == 6 {
                AccountKey::MasterEditionV2
            } else if tag == 7 {
                AccountKey::EditionMarker
            } else if tag == 8 {
                AccountKey::UseAuthorityRecord
            } else if tag == 9 {
                AccountKey::CollectionAuthorityRecord
            } else {
                return None;
            };
            Some((key, next))
        },
    }
}

pub fn read_creator(data: &[u8], at: usize) -> (r: Option<(Creator, usize)>)
    ensures
        r is Some <==> take_creator(data@, at as int) is Some,
        r matches Some((v, next)) ==> take_creator(data@, at as int) == Some((v@, next as int)),
{
    let (address, p) = match read_key(data, at) {
        Some(x) => x,
        None => { return None; },
    };
    let (verified, q) = match read_bool(data, p) {
        Some(x) => x,
        None => { return None; },
    };
    let (share, next) = match read_u8(data, q) {
        Some(x) => x,
        None => { return None; },
    };
    Some((Creator { address, verified, share }, next))
}

pub fn read_creator_list(data: &[u8], at: usize) -> (r: Option<(Option<Vec<Creator>>, usize)>)
    ensures
        r is Some <==> take_creator_list(data@, at as int) is Some,
        r matches Some((v, next)) ==> (take_creator_list(data@, at as int) matches Some(found)
            && found.1 == next && match v {
            Some(creators) => found.0 == Some(creator_views(creators@)),
            None => found.0 is None,
        }),
{
    if at >= data.len() {
        return None;
    }
    let flag = data[at];
    if flag == 0 {
        return Some((None, at + 1));
    }
    if flag != 1 {
        return None;
    }
    let (n, start) = match read_u32(data, at + 1) {
        Some(x) => x,
        None => { return None; },
    };
    let mut creators: Vec<Creator> = Vec::new();
    let mut pos: usize = start;
    let mut i: u32 = 0;
    while i < n
        invariant
            i <= n,
            at < data@.len(),
            data@[at as int] == 1,
            take_u32(data@, at + 1) == Some((n, start as int)),
            take_creators(data@, start as int, i as nat) == Some(
                (creator_views(creators@), pos as int),
            ),
        decreases n - i,
    {
        match read_creator(data, pos) {
            None => {
                proof {
                    lemma_creators_prefix(data@, start as int, i as nat, n as nat);
                }
                return None;
            },
            Some((creator, next)) => {
                let ghost before = creators@;
                creators.push(creator);
                assert(creator_views(creators@) =~= creator_views(before).push(creator@));
                pos = next;
                i += 1;
            },
        }
    }
    Some((Some(creators), pos))
}

/// A list of creators can be read only if each shorter list can.
proof fn lemma_creators_prefix(s: Seq<u8>, at: int, i: nat, n: nat)
    requires
        i < n,
        take_creators(s, at, i) matches Some(front) && take_creator(s, front.1) is None,
    ensures
        take_creators(s, at, n) is None,
    decreases n,
{
    if n - 1 > i {
        lemma_creators_prefix(s, at, i, (n - 1) as nat);
    }
}

pub fn read_data(data: &[u8], at: usize) -> (r: Option<(Data, usize)>)
    ensures
        r is Some <==> take_data(data@, at as int) is Some,
        r matches Some((v, next)) ==> take_data(data@, at as int) == Some((v@, next as int)),
{
    let (name, p1) = match read_string(data, at) {
        Some(x) => x,
        None => { return None; },
    };
    let (symbol, p2) = match read_string(data, p1) {
        Some(x) => x,
        None => { return None; },
    };
    let (uri, p3) = match read_string(data, p2) {
        Some(x) => x,
        None => { return None; },
    };
    let (seller_fee_basis_points, p4) = match read_u16(data, p3) {
        Some(x) => x,
        None => { return None; },
    };
    let (creators, next) = match read_creator_list(data, p4) {
        Some(x) => x,
        None => { return None; },
    };
    Some((Data { name, symbol, uri, seller_fee_basis_points, creators }, next))
}

pub fn read_metadata(data: &[u8], at: usize) -> (r: Option<(Metadata, usize)>)
    ensures
        r is Some <==> take_metadata(data@, at as int) is Some,
        r matches Some((v, next)) ==> take_metadata(data@, at as int) == Some((v@, next as int)),
{
    let (update_authority, p1) = match read_key(data, at) {
        Some(x) => x,
        None => { return None; },
    };
    let (mint, p2) = match read_key(data, p1) {
        Some(x) => x,
        None => { return None; },
    };
    let (record, p3) = match read_data(data, p2) {
        Some(x) => x,
        None => { return None; },
    };
    let (primary_sale_happened, p4) = match read_bool(data, p3) {
        Some(x) => x,
        None => { return None; },
    };
    let (is_mutable, next) = match read_bool(data, p4) {
        Some(x) => x,
        None => { return None; },
    };
    Some(
        (Metadata { update_authority, mint, data: record, primary_sale_happened, is_mutable }, next),
    )
}

pub fn read_metadata_ext(data: &[u8], at: usize) -> (r: Option<(MetadataExt, usize)>)
    ensures
        r is Some <==> take_metadata_ext(data@, at as int) is Some,
        r matches Some((v, next)) ==> take_metadata_ext(data@, at as int) == Some(
            (v, next as int),
        ),
{
    match read_option_u8(data, at) {
        Some((edition_nonce, next)) => Some((MetadataExt { edition_nonce }, next)),
        None => None,
    }
}

pub fn read_collection(data: &[u8], at: usize) -> (r: Option<(Option<Collection>, usize)>)
    ensures
        r is Some <==> take_collection(data@, at as int) is Some,
        r matches Some((v, next)) ==> (take_collection(data@, at as int) matches Some(found)
            && found.1 == next && match v {
            Some(collection) => found.0 == Some(collection@),
            None => found.0 is None,
        }),
{
    if at >= data.len() {
        return None;
    }
    let flag = data[at];
    if flag == 0 {
        return Some((None, at + 1));
    }
    if flag != 1 {
        return None;
    }
    let (verified, p) = match read_bool(data, at + 1) {
        Some(x) => x,
        None => { return None; },
    };
    let (key, next) = match read_key(data, p) {
        Some(x) => x,
        None => { return None; },
    };
    Some((Some(Collection { verified, key }), next))
}

pub fn read_uses(data: &[u8], at: usize) -> (r: Option<(Option<Uses>, usize)>)
    ensures
        r is Some <==> take_uses(data@, at as int) is Some,
        r matches Some((v, next)) ==> take_uses(data@, at as int) == Some((v, next as int)),
{
    if at >= data.len() {
        return None;
    }
    let flag = data[at];
    if flag == 0 {
        return Some((None, at + 1));
    }
    if flag != 1 {
        return None;
    }
    let (use_method, p) = match read_u8(data, at + 1) {
        Some(x) => x,
        None => { return None; },
    };
    let (remaining, q) = match read_u64(data, p) {
        Some(x) => x,
        None => { return None; },
    };
    let (total, next) = match read_u64(data, q) {
        Some(x) => x,
        None => { return None; },
    };
    Some((Some(Uses { use_method, remaining, total }), next))
}

pub fn read_metadata_ext_v1_2(data: &[u8], at: usize) -> (r: Option<(MetadataExtV1_2, usize)>)
    ensures
        r is Some <==> take_metadata_ext_v1_2(data@, at as int) is Some,
        r matches Some((v, next)) ==> take_metadata_ext_v1_2(data@, at as int) == Some(
            (v@, next as int),
        ),
{
    let (token_standard, p1) = match read_option_u8(data, at) {
        Some(x) => x,
        None => { return None; },
    };
    let (collection, p2) = match read_collection(data, p1) {
        Some(x) => x,
        None => { return None; },
    };
    let (uses, next) = match read_uses(data, p2) {
        Some(x) => x,
        None => { return None; },
    };
    Some((MetadataExtV1_2 { token_standard, collection, uses }, next))
}

/// Decodes the data of an account that the token-metadata program owns.
pub fn decode_metadata_account(data: &[u8]) -> (account: MetadataAccount)
    ensures
        account@ == metadata_account(data@),
{
    let (key, p) = match read_account_key(data, 0) {
        Some(x) => x,
        None => { return MetadataAccount::NotMetadata; },
    };
    match key {
        AccountKey::MetadataV1 => {},
        _ => { return MetadataAccount::NotMetadata; },
    }
    let (metadata, q) = match read_metadata(data, p) {
        Some(x) => x,
        None => { return MetadataAccount::Malformed; },
    };
    let (ext, r) = match read_metadata_ext(data, q) {
        Some(x) => x,
        None => { return MetadataAccount::Decoded { metadata, ext: None, ext_v1_2: None }; },
    };
    let ext_v1_2 = match read_metadata_ext_v1_2(data, r) {
        Some((x, _)) => Some(x),
        None => None,
    };
    MetadataAccount::Decoded { metadata, ext: Some(ext), ext_v1_2 }
}

} // verus!
