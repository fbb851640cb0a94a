//! Accounts of the SPL token program: token accounts, mints and multisigs.
//!
//! The three kinds are told apart by the length of the account data. The
//! token program's own code unpacks them.

use crate::pubkey::Pubkey;
use solana_program::program_pack::Pack;
use vstd::prelude::*;

verus! {

/// `TokenkegQfeZyiNwAJbNbGKPFXCWuBvf9Ss623VQ5DA`
pub const ID: [u8; 32] = [
    6, 221, 246, 225, 215, 101, 161, 147, 217, 203, 225, 70, 206, 235, 121, 172, 28, 180, 133, 237,
    95, 91, 55, 145, 58, 140, 245, 133, 126, 255, 0, 169,
];

/// Bytes of a packed token account.
pub const ACCOUNT_LEN: u64 = 165;

/// Bytes of a packed mint.
pub const MINT_LEN: u64 = 82;

/// Bytes of a packed multisig.
pub const MULTISIG_LEN: u64 = 355;

/// The number of signer slots of a multisig.
pub const MAX_SIGNERS: usize = 11;

/// The address of the token program.
pub fn id() -> (key: Pubkey)
    ensures
        key@ == ID@,
{
    Pubkey(ID)
}

/// Whether `owner` is the token program.
pub fn is_token_program(owner: &Pubkey) -> (b: bool)
    ensures
        b == (owner@ == ID@),
{
    *owner == Pubkey(ID)
}

#[derive(Clone, Copy, Debug)]
pub struct TokenMint {
    pub mint_authority: Option<Pubkey>,
    pub supply: u64,
    pub decimals: u8,
    pub is_initialized: bool,
    pub freeze_authority: Option<Pubkey>,
}

#[derive(Clone, Copy, Debug)]
pub struct TokenAccount {
    pub mint: Pubkey,
    pub owner: Pubkey,
    pub amount: u64,
    pub delegate: Option<Pubkey>,
    /// 0 for uninitialized, 1 for initialized, 2 for frozen.
    pub state: u8,
    pub is_native: Option<u64>,
    pub delegated_amount: u64,
    pub close_authority: Option<Pubkey>,
}

#[derive(Clone, Copy, Debug)]
pub struct TokenMultisig {
    /// Number of signers required.
    pub m: u8,
    /// Number of valid signers.
    pub n: u8,
    pub is_initialized: bool,
    pub signers: [Pubkey; 11],
}

/// What `spl_token::state::Account::unpack` makes of account data, with
/// each key as its 32 bytes and the state as its number. `None` stands for
/// its error.
pub uninterp spec fn spl_account(data: Seq<u8>) -> Option<TokenAccount>;

/// What `spl_token::state::Mint::unpack` makes of account data, with each
/// key as its 32 bytes. `None` stands for its error.
pub uninterp spec fn spl_mint(data: Seq<u8>) -> Option<TokenMint>;

/// What `spl_token::state::Multisig::unpack` makes of account data, with
/// each key as its 32 bytes. `None` stands for its error.
pub uninterp spec fn spl_multisig(data: Seq<u8>) -> Option<TokenMultisig>;

/// Calls `spl_token::state::Account::unpack` and hands on the fields of the
/// account one for one. Taken on trust: the outcome depends on the bytes
/// alone.
#[verifier::external_body]
fn unpack_account(data: &[u8]) -> (r: Option<TokenAccount>)
    ensures
        r == spl_account(data@),
{
    let a = match spl_token::state::Account::unpack(data) {
        Ok(a) => a,
        Err(_) => return None,
    };
    let key = |k: solana_program::pubkey::Pubkey| Pubkey(k.to_bytes());
    Some(TokenAccount {
        mint: key(a.mint), owner: key(a.owner), amount: a.amount,
        delegate: Option::from(a.delegate).map(key),
        state: a.state as u8,
        is_native: Option::from(a.is_native),
        delegated_amount: a.delegated_amount,
        close_authority: Option::from(a.close_authority).map(key),
    })
}

/// Calls `spl_token::state::Mint::unpack` and hands on the fields of the mint
/// one for one. Taken on trust: the outcome depends on the bytes alone.
#[verifier::external_body]
fn unpack_mint(data: &[u8]) -> (r: Option<TokenMint>)
    ensures
        r == spl_mint(data@),
{
    let m = match spl_token::state::Mint::unpack(data) {
        Ok(m) => m,
        Err(_) => return None,
    };
    let key = |k: solana_program::pubkey::Pubkey| Pubkey(k.to_bytes());
    Some(TokenMint {
        mint_authority: Option::from(m.mint_authority).map(key),
        supply: m.supply, decimals: m.decimals, is_initialized: m.is_initialized,
        freeze_authority: Option::from(m.freeze_authority).map(key),
    })
}

/// Calls `spl_token::state::Multisig::unpack` and hands on the fields of the
/// multisig one for one, all eleven signer slots among them. Taken on trust:
/// the outcome depends on the bytes alone.
#[verifier::external_body]
fn unpack_multisig(data: &[u8]) -> (r: Option<TokenMultisig>)
    ensures
        r == spl_multisig(data@),
{
    let m = match spl_token::state::Multisig::unpack(data) {
        Ok(m) => m,
        Err(_) => return None,
    };
    let signers = m.signers.map(|k| Pubkey(k.to_bytes()));
    Some(TokenMultisig { m: m.m, n: m.n, is_initialized: m.is_initialized, signers })
}

/// An account of the token program, unpacked.
#[derive(Clone, Copy, Debug)]
pub enum TokenData {
    Account(TokenAccount),
    Mint(TokenMint),
    Multisig(TokenMultisig),
}

/// What the data of an account of the token program holds.
#[derive(Clone, Copy, Debug)]
pub enum TokenDecode {
    /// The data has the length of none of the three kinds.
    UnexpectedSize,
    /// The data has the length of one of the kinds and does not unpack as it,
    /// or it is a multisig that claims more signers than it has slots.
    Malformed,
    Decoded(TokenData),
}

/// How an account of the token program is told apart by the length of its
/// data, given what unpacking the data as each kind yields.
pub open spec fn token_decode(
    data_len: u64,
    account: Option<TokenAccount>,
    mint: Option<TokenMint>,
    multisig: Option<TokenMultisig>,
) -> TokenDecode {
    if data_len == ACCOUNT_LEN {
        match account {
            Some(a) => TokenDecode::Decoded(TokenData::Account(a)),
            None => TokenDecode::Malformed,
        }
    } else if data_len == MINT_LEN {
        match mint {
            Some(m) => TokenDecode::Decoded(TokenData::Mint(m)),
            None => TokenDecode::Malformed,
        }
    } else if data_len == MULTISIG_LEN {
        match multisig {
            Some(m) => if m.n <= MAX_SIGNERS {
                TokenDecode::Decoded(TokenData::Multisig(m))
            } else {
                TokenDecode::Malformed
            },
            None => TokenDecode::Malformed,
        }
    } else {
        TokenDecode::UnexpectedSize
    }
}

/// Whether an account of the token program with data of this length counts
/// as a token account.
pub open spec fn is_token_size(data_len: u64) -> bool {
    data_len == ACCOUNT_LEN || data_len == MINT_LEN || data_len == MULTISIG_LEN
}

/// Wraps an unpacked multisig, unless it claims more signers than it has
/// slots.
pub fn checked_multisig(multisig: Option<TokenMultisig>) -> (r: TokenDecode)
    ensures
        r == token_decode(MULTISIG_LEN, None, None, multisig),
{
    match multisig {
        Some(m) => if m.n as usize <= MAX_SIGNERS {
            TokenDecode::Decoded(TokenData::Multisig(m))
        } else {
            TokenDecode::Malformed
        },
        None => TokenDecode::Malformed,
    }
}

/// Decodes the data of an account that the token program owns. `data_len` is
/// the length that the account's header declares.
pub fn decode_token(data_len: u64, data: &[u8]) -> (r: TokenDecode)
    ensures
        r == token_decode(data_len, spl_account(data@), spl_mint(data@), spl_multisig(data@)),
{
    if data_len == ACCOUNT_LEN {
        match unpack_account(data) {
            Some(a) => TokenDecode::Decoded(TokenData::Account(a)),
            None => TokenDecode::Malformed,
        }
    } else if data_len == MINT_LEN {
        match unpack_mint(data) {
            Some(m) => TokenDecode::Decoded(TokenData::Mint(m)),
            None => TokenDecode::Malformed,
        }
    } else if data_len == MULTISIG_LEN {
        checked_multisig(unpack_multisig(data))
    } else {
        TokenDecode::UnexpectedSize
    }
}

} // verus!
