//! The relational index of a snapshot: which rows each account adds to which
//! table, how progress is counted, and how the database file comes to its
//! final name.

use crate::append_vec::{AccountMeta, StoredAccountMeta, StoredMeta};
use crate::mpl_metadata::{
    decode_metadata_account, metadata_account, Metadata, MetadataAccount, MetadataAccountView,
    MetadataExt, MetadataExtV1_2, MetadataExtV1_2View, MetadataView,
};
use crate::pubkey::Pubkey;
use crate::token::{
    decode_token, is_token_size, spl_account, spl_mint, spl_multisig, token_decode, TokenAccount,
    TokenData, TokenDecode, TokenMint, TokenMultisig, MAX_SIGNERS,
};
use vstd::prelude::*;
use vstd::string::StringExecFns;

verus! {

/// The 64-bit signed integer that SQLite stores for an unsigned one: the same
/// 64 bits.
pub open spec fn sql_integer(x: u64) -> i64 {
    if x <= i64::MAX {
        x as i64
    } else {
        (x - 0x1_0000_0000_0000_0000) as i64
    }
}

pub fn to_sql_integer(x: u64) -> (r: i64)
    ensures
        r == sql_integer(x),
{
    if x <= 0x7fff_ffff_ffff_ffff {
        x as i64
    } else {
        ((x - 0x8000_0000_0000_0000) as i64) + i64::MIN
    }
}

/// A row of table `account`.
#[derive(Clone, Copy, Debug)]
pub struct AccountRow {
    pub pubkey: Pubkey,
    pub data_len: i64,
    pub owner: Pubkey,
    pub lamports: i64,
    pub executable: bool,
    pub rent_epoch: i64,
}

/// A row of table `token_account`.
#[derive(Clone, Copy, Debug)]
pub struct TokenAccountRow {
    pub pubkey: Pubkey,
    pub mint: Pubkey,
    pub owner: Pubkey,
    pub amount: i64,
    pub delegate: Option<Pubkey>,
    pub state: u8,
    pub is_native: Option<u64>,
    pub delegated_amount: i64,
    pub close_authority: Option<Pubkey>,
}

/// A row of table `token_mint`.
#[derive(Clone, Copy, Debug)]
pub struct TokenMintRow {
    pub pubkey: Pubkey,
    pub mint_authority: Option<Pubkey>,
    pub supply: i64,
    pub decimals: u8,
    pub is_initialized: bool,
    pub freeze_authority: Option<Pubkey>,
}

/// A row of table `token_multisig`: one signer of a multisig.
#[derive(Clone, Copy, Debug)]
pub struct TokenMultisigRow {
    pub pubkey: Pubkey,
    pub signer: Pubkey,
    pub m: u8,
    pub n: u8,
}

/// A row of table `token_metadata`.
#[derive(Debug)]
pub struct TokenMetadataRow {
    pub pubkey: Pubkey,
    pub mint: Pubkey,
    pub name: String,
    pub symbol: String,
    pub uri: String,
    pub seller_fee_basis_points: u16,
    pub primary_sale_happened: bool,
    pub is_mutable: bool,
    pub edition_nonce: Option<u8>,
    pub collection_verified: Option<bool>,
    pub collection_key: Option<Pubkey>,
}

pub struct TokenMetadataRowView {
    pub pubkey: Seq<u8>,
    pub mint: Seq<u8>,
    pub name: Seq<char>,
    pub symbol: Seq<char>,
    pub uri: Seq<char>,
    pub seller_fee_basis_points: u16,
    pub primary_sale_happened: bool,
    pub is_mutable: bool,
    pub edition_nonce: Option<u8>,
    pub collection_verified: Option<bool>,
    pub collection_key: Option<Seq<u8>>,
}

impl View for TokenMetadataRow {
    type V = TokenMetadataRowView;

    open spec fn view(&self) -> TokenMetadataRowView {
        TokenMetadataRowView {
            pubkey: self.pubkey@,
            mint: self.mint@,
            name: self.name@,
            symbol: self.symbol@,
            uri: self.uri@,
            seller_fee_basis_points: self.seller_fee_basis_points,
            primary_sale_happened: self.primary_sale_happened,
            is_mutable: self.is_mutable,
            edition_nonce: self.edition_nonce,
            collection_verified: self.collection_verified,
            collection_key: match self.collection_key {
                Some(key) => Some(key@),
                None => None,
            },
        }
    }
}

/// A row and the table it goes to.
#[derive(Debug)]
pub enum Row {
    Account(AccountRow),
    TokenAccount(TokenAccountRow),
    TokenMint(TokenMintRow),
    TokenMultisig(TokenMultisigRow),
    TokenMetadata(TokenMetadataRow),
}

pub enum RowView {
    Account(AccountRow),
    TokenAccount(TokenAccountRow),
    TokenMint(TokenMintRow),
    TokenMultisig(TokenMultisigRow),
    TokenMetadata(TokenMetadataRowView),
}

impl View for Row {
    type V = RowView;

    open spec fn view(&self) -> RowView {
        match self {
            Row::Account(r) => RowView::Account(*r),
            Row::TokenAccount(r) => RowView::TokenAccount(*r),
            Row::TokenMint(r) => RowView::TokenMint(*r),
            Row::TokenMultisig(r) => RowView::TokenMultisig(*r),
            Row::TokenMetadata(r) => RowView::TokenMetadata(r@),
        }
    }
}

/// The views of a list of rows.
pub open spec fn row_views(rows: Seq<Row>) -> Seq<RowView> {
    Seq::new(rows.len(), |i: int| rows[i]@)
}

/// The `account` row of a record.
pub open spec fn account_row_of(meta: StoredMeta, account_meta: AccountMeta) -> AccountRow {
    AccountRow {
        pubkey: meta.pubkey,
        data_len: sql_integer(meta.data_len),
        owner: account_meta.owner,
        lamports: sql_integer(account_meta.lamports),
        executable: account_meta.executable,
        rent_epoch: sql_integer(account_meta.rent_epoch),
    }
}

pub open spec fn token_account_row_of(pubkey: Pubkey, a: TokenAccount) -> TokenAccountRow {
    TokenAccountRow {
        pubkey,
        mint: a.mint,
        owner: a.owner,
        amount: sql_integer(a.amount),
        delegate: a.delegate,
        state: a.state,
        is_native: a.is_native,
        delegated_amount: sql_integer(a.delegated_amount),
        close_authority: a.close_authority,
    }
}

pub open spec fn token_mint_row_of(pubkey: Pubkey, m: TokenMint) -> TokenMintRow {
    TokenMintRow {
        pubkey,
        mint_authority: m.mint_authority,
        supply: sql_integer(m.supply),
        decimals: m.decimals,
        is_initialized: m.is_initialized,
        freeze_authority: m.freeze_authority,
    }
}

/// One row for each of the first `n` signers, in their order.
pub open spec fn token_multisig_rows_of(pubkey: Pubkey, m: TokenMultisig) -> Seq<RowView> {
    Seq::new(
        m.n as nat,
        |i: int|
            RowView::TokenMultisig(
                TokenMultisigRow { pubkey, signer: m.signers@[i], m: m.m, n: m.n },
            ),
    )
}

/// The `token_metadata` row of a metadata account. The columns of an
/// extension that the account lacks are empty.
pub open spec fn token_metadata_row_of(
    pubkey: Seq<u8>,
    metadata: MetadataView,
    ext: Option<MetadataExt>,
    ext_v1_2: Option<MetadataExtV1_2View>,
) -> TokenMetadataRowView {
    let collection = match ext_v1_2 {
        Some(x) => x.collection,
        None => None,
    };
    TokenMetadataRowView {
        pubkey,
        mint: metadata.mint,
        name: metadata.data.name,
        symbol: metadata.data.symbol,
        uri: metadata.data.uri,
        seller_fee_basis_points: metadata.data.seller_fee_basis_points,
        primary_sale_happened: metadata.primary_sale_happened,
        is_mutable: metadata.is_mutable,
        edition_nonce: match ext {
            Some(e) => e.edition_nonce,
            None => None,
        },
        collection_verified: match collection {
            Some(c) => Some(c.verified),
            None => None,
        },
        collection_key: match collection {
            Some(c) => Some(c.key),
            None => None,
        },
    }
}

/// The rows of an account of the token program.
pub open spec fn token_rows_of(pubkey: Pubkey, token: TokenDecode) -> Seq<RowView> {
    match token {
        TokenDecode::Decoded(TokenData::Account(a)) => seq![
            RowView::TokenAccount(token_account_row_of(pubkey, a)),
        ],
        TokenDecode::Decoded(TokenData::Mint(m)) => seq![
            RowView::TokenMint(token_mint_row_of(pubkey, m)),
        ],
        TokenDecode::Decoded(TokenData::Multisig(m)) => if m.n <= MAX_SIGNERS {
            token_multisig_rows_of(pubkey, m)
        } else {
            Seq::empty()
        },
        _ => Seq::empty(),
    }
}

/// The rows of an account of the token-metadata program.
pub open spec fn metadata_rows_of(pubkey: Seq<u8>, account: MetadataAccountView) -> Seq<RowView> {
    match account {
        MetadataAccountView::Decoded { metadata, ext, ext_v1_2 } => seq![
            RowView::TokenMetadata(token_metadata_row_of(pubkey, metadata, ext, ext_v1_2)),
        ],
        _ => Seq::empty(),
    }
}

pub fn account_row(account: &StoredAccountMeta) -> (row: AccountRow)
    ensures
        row == account_row_of(account.meta, account.account_meta),
{
    AccountRow {
        pubkey: account.meta.pubkey,
        data_len: to_sql_integer(account.meta.data_len),
        owner: account.account_meta.owner,
        lamports: to_sql_integer(account.account_meta.lamports),
        executable: account.account_meta.executable,
        rent_epoch: to_sql_integer(account.account_meta.rent_epoch),
    }
}

pub fn token_account_row(pubkey: Pubkey, a: &TokenAccount) -> (row: TokenAccountRow)
    ensures
        row == token_account_row_of(pubkey, *a),
{
    TokenAccountRow {
        pubkey,
        mint: a.mint,
        owner: a.owner,
        amount: to_sql_integer(a.amount),
        delegate: a.delegate,
        state: a.state,
        is_native: a.is_native,
        delegated_amount: to_sql_integer(a.delegated_amount),
        close_authority: a.close_authority,
    }
}

pub fn token_mint_row(pubkey: Pubkey, m: &TokenMint) -> (row: TokenMintRow)
    ensures
        row == token_mint_row_of(pubkey, *m),
{
    TokenMintRow {
        pubkey,
        mint_authority: m.mint_authority,
        supply: to_sql_integer(m.supply),
        decimals: m.decimals,
        is_initialized: m.is_initialized,
        freeze_authority: m.freeze_authority,
    }
}

/// Adds one row for each valid signer of a multisig to `rows`.
fn push_token_multisig_rows(rows: &mut Vec<Row>, pubkey: Pubkey, m: &TokenMultisig)
    requires
        m.n <= MAX_SIGNERS,
    ensures
        row_views(final(rows)@) == row_views(old(rows)@) + token_multisig_rows_of(pubkey, *m),
{
    let ghost before = rows@;
    let n = m.n as usize;
    let mut i: usize = 0;
    while i < n
        invariant
            i <= n,
            n == m.n,
            n <= MAX_SIGNERS,
            row_views(rows@) =~= row_views(before) + token_multisig_rows_of(pubkey, *m).take(
                i as int,
            ),
        decreases n - i,
    {
        let ghost prev = rows@;
        rows.push(Row::TokenMultisig(TokenMultisigRow { pubkey, signer: m.signers[i], m: m.m, n: m.n }));
        assert(row_views(rows@) =~= row_views(prev).push(rows@[prev.len() as int]@));
        assert(token_multisig_rows_of(pubkey, *m).take(i + 1) =~= token_multisig_rows_of(
            pubkey,
            *m,
        ).take(i as int).push(token_multisig_rows_of(pubkey, *m)[i as int]));
        i += 1;
    }
    assert(token_multisig_rows_of(pubkey, *m).take(n as int) =~= token_multisig_rows_of(
        pubkey,
        *m,
    ));
}

pub fn token_metadata_row(
    pubkey: Pubkey,
    metadata: &Metadata,
    ext: Option<&MetadataExt>,
    ext_v1_2: Option<&MetadataExtV1_2>,
) -> (row: TokenMetadataRow)
    ensures
        row@ == token_metadata_row_of(
            pubkey@,
            metadata@,
            match ext {
                Some(e) => Some(*e),
                None => None,
            },
            match ext_v1_2 {
                Some(x) => Some(x@),
                None => None,
            },
        ),
{
    let collection = match ext_v1_2 {
        Some(x) => x.collection,
        None => None,
    };
    TokenMetadataRow {
        pubkey,
        mint: metadata.mint,
        name: metadata.data.name.clone(),
        symbol: metadata.data.symbol.clone(),
        uri: metadata.data.uri.clone(),
        seller_fee_basis_points: metadata.data.seller_fee_basis_points,
        primary_sale_happened: metadata.primary_sale_happened,
        is_mutable: metadata.is_mutable,
        edition_nonce: match ext {
            Some(e) => e.edition_nonce,
            None => None,
        },
        collection_verified: match collection {
            Some(c) => Some(c.verified),
            None => None,
        },
        collection_key: match collection {
            Some(c) => Some(c.key),
            None => None,
        },
    }
}

/// What one account adds to the index.
#[derive(Debug)]
pub struct AccountPlan {
    /// The rows to insert, in this order. The first is the `account` row.
    pub rows: Vec<Row>,
    /// Whether the account counts as a token account.
    pub token_account: bool,
    /// Whether the account counts as a metadata account.
    pub metaplex_account: bool,
}

/// The rows of an account, given what its data decodes to. `token` is
/// present for an account of the token program and `metadata` for one of the
/// token-metadata program, where tokens are indexed at all.
pub open spec fn plan_rows(
    meta: StoredMeta,
    account_meta: AccountMeta,
    token: Option<TokenDecode>,
    metadata: Option<MetadataAccountView>,
) -> Seq<RowView> {
    seq![RowView::Account(account_row_of(meta, account_meta))] + (match token {
        Some(t) => token_rows_of(meta.pubkey, t),
        None => Seq::empty(),
    }) + (match metadata {
        Some(m) => metadata_rows_of(meta.pubkey@, m),
        None => Seq::empty(),
    })
}

/// Plans the rows of an account from what its data was decoded to. An
/// account whose data is malformed, or of a size or kind that is not
/// indexed, adds its `account` row alone. An account of the token program
/// counts as a token account if its data has the size of one of the three
/// kinds, and an account of the token-metadata program counts as a metadata
/// account if it was decoded.
pub fn plan_account(
    account: &StoredAccountMeta,
    token: Option<TokenDecode>,
    metadata: Option<MetadataAccount>,
) -> (plan: AccountPlan)
    ensures
        row_views(plan.rows@) == plan_rows(
            account.meta,
            account.account_meta,
            token,
            match metadata {
                Some(m) => Some(m@),
                None => None,
            },
        ),
        plan.token_account == (token is Some && !(token->0 is UnexpectedSize)),
        plan.metaplex_account == (metadata is Some && metadata->0 is Decoded),
{
    let pubkey = account.meta.pubkey;
    let mut rows: Vec<Row> = Vec::new();
    rows.push(Row::Account(account_row(account)));
    assert(row_views(rows@) =~= seq![
        RowView::Account(account_row_of(account.meta, account.account_meta)),
    ]);
    let ghost first = row_views(rows@);
    let ghost token_part = match token {
        Some(t) => token_rows_of(pubkey, t),
        None => Seq::empty(),
    };
    let ghost metadata_part = if metadata is Some {
        metadata_rows_of(pubkey@, metadata->0@)
    } else {
        Seq::empty()
    };
    let mut token_account = false;
    match token {
        Some(TokenDecode::Decoded(TokenData::Account(a))) => {
            rows.push(Row::TokenAccount(token_account_row(pubkey, &a)));
            assert(row_views(rows@) =~= first + token_part);
            token_account = true;
        },
        Some(TokenDecode::Decoded(TokenData::Mint(m))) => {
            rows.push(Row::TokenMint(token_mint_row(pubkey, &m)));
            assert(row_views(rows@) =~= first + token_part);
            token_account = true;
        },
        Some(TokenDecode::Decoded(TokenData::Multisig(m))) => {
            if m.n as usize <= MAX_SIGNERS {
                push_token_multisig_rows(&mut rows, pubkey, &m);
            }
            token_account = true;
        },
        Some(TokenDecode::Malformed) => {
            token_account = true;
        },
        _ => {},
    }
    let ghost second = row_views(rows@);
    assert(second =~= first + token_part);
    let mut metaplex_account = false;
    match metadata {
        Some(MetadataAccount::Decoded { metadata, ext, ext_v1_2 }) => {
            rows.push(
                Row::TokenMetadata(
                    token_metadata_row(pubkey, &metadata, ext.as_ref(), ext_v1_2.as_ref()),
                ),
            );
            assert(row_views(rows@) =~= second + metadata_part);
            metaplex_account = true;
        },
        _ => {},
    }
    assert(row_views(rows@) =~= first + token_part + metadata_part);
    AccountPlan { rows, token_account, metaplex_account }
}

/// The decoded data of an account of the token program, if tokens are
/// indexed and the token program owns the account.
pub open spec fn token_part(account: StoredAccountMeta, tokens: bool) -> Option<TokenDecode> {
    if tokens && account.account_meta.owner@ == crate::token::ID@ {
        Some(
            token_decode(
                account.meta.data_len,
                spl_account(account.data@),
                spl_mint(account.data@),
                spl_multisig(account.data@),
            ),
        )
    } else {
        None
    }
}

/// The decoded data of an account of the token-metadata program, if tokens
/// are indexed and that program owns the account.
pub open spec fn metadata_part(account: StoredAccountMeta, tokens: bool) -> Option<
    MetadataAccountView,
> {
    if tokens && account.account_meta.owner@ == crate::mpl_metadata::ID@ {
        Some(metadata_account(account.data@))
    } else {
        None
    }
}

/// Plans the rows of an account. Every account adds a row to `account`. With
/// `tokens` set, an account of the token program adds the rows of the token
/// account, mint or multisig that its data unpacks to, and an account of the
/// token-metadata program adds the row of its metadata.
pub fn index_account(account: &StoredAccountMeta, tokens: bool) -> (plan: AccountPlan)
    ensures
        row_views(plan.rows@) == plan_rows(
            account.meta,
            account.account_meta,
            token_part(*account, tokens),
            metadata_part(*account, tokens),
        ),
        plan.token_account == (tokens && account.account_meta.owner@ == crate::token::ID@
            && is_token_size(account.meta.data_len)),
        plan.metaplex_account == (metadata_part(*account, tokens) matches Some(m) && m is Decoded),
{
    let token = if tokens && crate::token::is_token_program(&account.account_meta.owner) {
        Some(decode_token(account.meta.data_len, account.data))
    } else {
        None
    };
    let metadata = if tokens && crate::mpl_metadata::is_metadata_program(
        &account.account_meta.owner,
    ) {
        Some(decode_metadata_account(account.data))
    } else {
        None
    };
    plan_account(account, token, metadata)
}

/// How many increments lie between two reports of a counter.
pub const PROGRESS_INTERVAL: u64 = 1024;

/// Counts accounts, and says when the count is to be reported.
#[derive(Clone, Copy, Debug)]
pub struct ProgressCounter {
    counter: u64,
}

impl ProgressCounter {
    pub closed spec fn value(&self) -> u64 {
        self.counter
    }

    pub fn new() -> (counter: ProgressCounter)
        ensures
            counter.value() == 0,
    {
        ProgressCounter { counter: 0 }
    }

    pub fn get(&self) -> (count: u64)
        ensures
            count == self.value(),
    {
        self.counter
    }

    /// Counts one more. The count before the increment is reported if it is
    /// a multiple of the interval. The counter wraps around at 64 bits.
    pub fn inc(&mut self) -> (report: Option<u64>)
        ensures
            final(self).value() == (if old(self).value() == u64::MAX {
                0
            } else {
                old(self).value() + 1
            }),
            report == (if old(self).value() % PROGRESS_INTERVAL == 0 {
                Some(old(self).value())
            } else {
                None
            }),
    {
        let count = self.counter;
        self.counter = if count == u64::MAX {
            0
        } else {
            count + 1
        };
        if count % PROGRESS_INTERVAL == 0 {
            Some(count)
        } else {
            None
        }
    }

    /// Counts one more, as `inc` does. The count after the increment is
    /// reported if it is a multiple of the interval.
    pub fn advance(&mut self) -> (report: Option<u64>)
        ensures
            final(self).value() == (if old(self).value() == u64::MAX {
                0
            } else {
                old(self).value() + 1
            }),
            report == (if final(self).value() % PROGRESS_INTERVAL == 0 {
                Some(final(self).value())
            } else {
                None
            }),
    {
        self.counter = if self.counter == u64::MAX {
            0
        } else {
            self.counter + 1
        };
        if self.counter % PROGRESS_INTERVAL == 0 {
            Some(self.counter)
        } else {
            None
        }
    }
}

/// The name of the file that the database is written to before it is
/// complete: the target's file name between `_` and `.tmp`.
pub fn temp_file_name(file_name: &str) -> (name: String)
    ensures
        name@ == "_"@ + file_name@ + ".tmp"@,
        name@ != file_name@,
{
    proof {
        reveal_strlit("_");
        reveal_strlit(".tmp");
    }
    String::from_str("_").concat(file_name).concat(".tmp")
}

/// Keeps the path of a temporary file until the file has been renamed to its
/// final name. A guard that still holds its path when it is given up names a
/// file to remove: the guard lets go of the path only once the rename is
/// known to have succeeded.
#[derive(Debug)]
pub struct TempFileGuard {
    pub path: Option<String>,
}

impl TempFileGuard {
    pub fn new(path: String) -> (guard: TempFileGuard)
        ensures
            guard.path == Some(path),
    {
        Self { path: Some(path) }
    }

    /// The path of the file to rename to its final name. The guard goes on
    /// holding the path: tell it with `promoted` how the rename went.
    pub fn promote(&self) -> (path: &String)
        requires
            self.path is Some,
        ensures
            Some(*path) == self.path,
    {
        self.path.as_ref().unwrap()
    }

    /// The path that the guard holds.
    pub open spec fn held(&self) -> Option<Seq<char>> {
        match self.path {
            Some(path) => Some(path@),
            None => None,
        }
    }

    /// Takes note of how the rename went. After a rename that succeeded the
    /// guard holds no file. After one that failed it holds the file as
    /// before, so that the file is removed when the guard is given up.
    pub fn promoted(&mut self, renamed: bool)
        ensures
            renamed ==> final(self).path is None,
            !renamed ==> final(self).path == old(self).path,
            final(self).held() == held_after_rename(old(self).held(), renamed),
    {
        if renamed {
            self.path = None;
        }
    }

    /// Hands out the path of the file to remove, if the guard still holds
    /// one. The guard holds no file afterwards.
    pub fn release(&mut self) -> (path: Option<String>)
        ensures
            path == old(self).path,
            final(self).path is None,
    {
        self.path.take()
    }
}

/// What a guard holds once it has taken note of a rename.
pub open spec fn held_after_rename(held: Option<Seq<char>>, renamed: bool) -> Option<Seq<char>> {
    if renamed {
        None
    } else {
        held
    }
}

/// The files that exist after a rename of `from` to `to` was tried: one that
/// succeeded has moved the file, one that failed has changed nothing.
pub open spec fn files_after_rename(
    files: Set<Seq<char>>,
    from: Seq<char>,
    to: Seq<char>,
    renamed: bool,
) -> Set<Seq<char>> {
    if renamed {
        files.remove(from).insert(to)
    } else {
        files
    }
}

/// The files that exist after a guard was given up: the file that it held to
/// the last is removed.
pub open spec fn files_after_release(files: Set<Seq<char>>, held: Option<Seq<char>>) -> Set<
    Seq<char>,
> {
    match held {
        Some(path) => files.remove(path),
        None => files,
    }
}

/// The database comes to its final name whole or not at all. The database is
/// written to the temporary file `temp`, which a guard holds. If the writing
/// is completed, the file is renamed to `target` and the guard takes note of
/// how the rename went; in the end the guard is given up. Where no file was
/// at `target` before, afterwards the temporary file is gone in any case,
/// and a file is at `target` exactly if the writing was completed and the
/// rename succeeded.
pub proof fn lemma_temp_file_discipline(
    files: Set<Seq<char>>,
    temp: Seq<char>,
    target: Seq<char>,
    completed: bool,
    renamed: bool,
)
    requires
        temp != target,
        !files.contains(target),
    ensures
        ({
            let written = files.insert(temp);
            let moved = if completed {
                files_after_rename(written, temp, target, renamed)
            } else {
                written
            };
            let held = if completed {
                held_after_rename(Some(temp), renamed)
            } else {
                Some(temp)
            };
            let left = files_after_release(moved, held);
            &&& !left.contains(temp)
            &&& left.contains(target) <==> completed && renamed
        }),
{
}

/// The value of the `cache_size` pragma for a cache of `size_mib` MiB: the
/// size in KiB, negated. `None` if that is no 64-bit integer.
pub open spec fn cache_size_of(size_mib: i64) -> Option<i64> {
    if i64::MIN <= size_mib * 1024 <= i64::MAX && i64::MIN <= -(size_mib * 1024) <= i64::MAX {
        Some((-(size_mib * 1024)) as i64)
    } else {
        None
    }
}

pub fn cache_size_pragma(size_mib: i64) -> (r: Option<i64>)
    ensures
        r == cache_size_of(size_mib),
{
    if size_mib > 0x1f_ffff_ffff_ffff || size_mib < -0x1f_ffff_ffff_ffff {
        None
    } else {
        Some(-(size_mib * 1024))
    }
}

/// Set to `SYNCHRONOUS` when the database is created.
pub const PRAGMA_SYNCHRONOUS: &'static str = "synchronous";

/// Writes are not synced to disk.
pub const SYNCHRONOUS: bool = false;

/// Set to `JOURNAL_MODE` when the database is created.
pub const PRAGMA_JOURNAL_MODE: &'static str = "journal_mode";

/// No rollback journal is kept.
pub const JOURNAL_MODE: &'static str = "off";

/// Set to `LOCKING_MODE` when the database is created.
pub const PRAGMA_LOCKING_MODE: &'static str = "locking_mode";

/// The database file stays locked for this connection.
pub const LOCKING_MODE: &'static str = "exclusive";

/// Set to the value that `cache_size_pragma` gives, where a size is asked for.
pub const PRAGMA_CACHE_SIZE: &'static str = "cache_size";

/// Set to `QUERY_ONLY` when all rows are in the database.
pub const PRAGMA_QUERY_ONLY: &'static str = "query_only";

/// The finished database takes no more writes.
pub const QUERY_ONLY: bool = true;

pub const CREATE_TABLE_ACCOUNT: &'static str = "\
CREATE TABLE account  (
    pubkey BLOB(32) NOT NULL PRIMARY KEY,
    data_len INTEGER(8) NOT NULL,
    owner BLOB(32) NOT NULL,
    lamports INTEGER(8) NOT NULL,
    executable INTEGER(1) NOT NULL,
    rent_epoch INTEGER(8) NOT NULL
);";

pub const CREATE_TABLE_TOKEN_MINT: &'static str = "\
CREATE TABLE token_mint (
    pubkey BLOB(32) NOT NULL PRIMARY KEY,
    mint_authority BLOB(32) NULL,
    supply INTEGER(8) NOT NULL,
    decimals INTEGER(2) NOT NULL,
    is_initialized BOOL NOT NULL,
    freeze_authority BLOB(32) NULL
);";

pub const CREATE_TABLE_TOKEN_ACCOUNT: &'static str = "\
CREATE TABLE token_account (
    pubkey BLOB(32) NOT NULL PRIMARY KEY,
    mint BLOB(32) NOT NULL,
    owner BLOB(32) NOT NULL,
    amount INTEGER(8) NOT NULL,
    delegate BLOB(32),
    state INTEGER(1) NOT NULL,
    is_native INTEGER(8),
    delegated_amount INTEGER(8) NOT NULL,
    close_authority BLOB(32)
);";

pub const CREATE_TABLE_TOKEN_MULTISIG: &'static str = "\
CREATE TABLE token_multisig (
    pubkey BLOB(32) NOT NULL,
    signer BLOB(32) NOT NULL,
    m INTEGER(2) NOT NULL,
    n INTEGER(2) NOT NULL,
    PRIMARY KEY (pubkey, signer)
);";

pub const CREATE_TABLE_TOKEN_METADATA: &'static str = "\
CREATE TABLE token_metadata (
    pubkey BLOB(32) NOT NULL,
    mint BLOB(32) NOT NULL,
    name TEXT(32) NOT NULL,
    symbol TEXT(10) NOT NULL,
    uri TEXT(200) NOT NULL,
    seller_fee_basis_points INTEGER(4) NOT NULL,
    primary_sale_happened INTEGER(1) NOT NULL,
    is_mutable INTEGER(1) NOT NULL,
    edition_nonce INTEGER(2) NULL,
    collection_verified INTEGER(1) NULL,
    collection_key BLOB(32) NULL
);";

pub const INSERT_ACCOUNT: &'static str = "\
INSERT OR REPLACE INTO account (pubkey, data_len, owner, lamports, executable, rent_epoch)
    VALUES (?, ?, ?, ?, ?, ?);";

pub const INSERT_TOKEN_ACCOUNT: &'static str = "\
INSERT OR REPLACE INTO token_account (pubkey, mint, owner, amount, delegate, state, is_native, delegated_amount, close_authority)
    VALUES (?, ?, ?, ?, ?, ?, ?, ?, ?);";

pub const INSERT_TOKEN_MINT: &'static str = "\
INSERT OR REPLACE INTO token_mint (pubkey, mint_authority, supply, decimals, is_initialized, freeze_authority)
    VALUES (?, ?, ?, ?, ?, ?);";

pub const INSERT_TOKEN_MULTISIG: &'static str = "\
INSERT OR REPLACE INTO token_multisig (pubkey, signer, m, n)
    VALUES (?, ?, ?, ?);";

pub const INSERT_TOKEN_METADATA: &'static str = "\
INSERT OR REPLACE INTO token_metadata (
    pubkey,
    mint,
    name,
    symbol,
    uri,
    seller_fee_basis_points,
    primary_sale_happened,
    is_mutable,
    edition_nonce,
    collection_verified,
    collection_key
) VALUES (?, ?, ?, ?, ?, ?, ?, ?, ?, ?, ?);";

} // verus!
