//! The bank at the head of the manifest.
//!
//! The manifest does not say where the bank ends: the bank has to be read
//! field by field to find the accounts-DB fields behind it. None of its
//! values is kept. Its layout is written down as a `Shape`, and one reader
//! passes over any value whose shape it is given.

use crate::solana::{
    accounts_db_fields_at, check_read, in_value, parse_accounts_db_fields, read_error, read_word,
    take_word, AccountsDbFields, AccountsDbFieldsView, DeserializeError, DeserializeErrorKind,
};
use vstd::prelude::*;

verus! {

/// How a value lies in the manifest.
#[derive(Debug)]
pub enum Shape {
    /// So many bytes, read at once: an integer, a float, a key or a hash.
    Fixed(u64),
    /// One byte that is 0 or 1.
    Bool,
    /// A 64-bit length and then that many bytes.
    Bytes,
    /// One byte that is 0 or 1, and then, behind a 1, a value.
    Optional(Box<Shape>),
    /// A 64-bit number of items and then the items.
    List(Box<Shape>),
    /// So many items.
    Repeat(u64, Box<Shape>),
    /// One value and another behind it.
    Pair(Box<Shape>, Box<Shape>),
}

/// The flag at `at`: a byte that is 0 or 1.
pub open spec fn take_flag(s: Seq<u8>, start: int, at: int) -> Result<bool, DeserializeError> {
    match read_error(s, start, at, 1) {
        Some(e) => Err(e),
        None => if s[at] <= 1 {
            Ok(s[at] == 1)
        } else {
            Err(DeserializeError { offset: at as usize, kind: DeserializeErrorKind::InvalidData })
        },
    }
}

/// The offset behind the value of shape `shape` that starts at `at`, or why
/// no such value lies there. `start` is where the value began of which this
/// one is a part.
pub open spec fn skip(shape: Shape, s: Seq<u8>, start: int, at: int) -> Result<
    int,
    DeserializeError,
>
    decreases shape, 0nat,
{
    match shape {
        Shape::Fixed(n) => match read_error(s, start, at, n as int) {
            Some(e) => Err(e),
            None => Ok(at + n),
        },
        Shape::Bool => match take_flag(s, start, at) {
            Err(e) => Err(e),
            Ok(_) => Ok(at + 1),
        },
        Shape::Bytes => match take_word(s, start, at) {
            Err(e) => Err(e),
            Ok((n, p)) => match read_error(s, start, p, n as int) {
                Some(e) => Err(e),
                None => Ok(p + n),
            },
        },
        Shape::Optional(inner) => match take_flag(s, start, at) {
            Err(e) => Err(e),
            Ok(false) => Ok(at + 1),
            Ok(true) => skip(*inner, s, start, at + 1),
        },
        Shape::List(item) => match take_word(s, start, at) {
            Err(e) => Err(e),
            Ok((n, p)) => skip_items(*item, s, start, p, n as nat),
        },
        Shape::Repeat(n, item) => skip_items(*item, s, start, at, n as nat),
        Shape::Pair(first, second) => match skip(*first, s, start, at) {
            Err(e) => Err(e),
            Ok(p) => skip(*second, s, start, p),
        },
    }
}

/// The offset behind `n` values of shape `item`, one behind the other.
pub open spec fn skip_items(item: Shape, s: Seq<u8>, start: int, at: int, n: nat) -> Result<
    int,
    DeserializeError,
>
    decreases item, n + 1,
{
    if n == 0 {
        Ok(at)
    } else {
        match skip(item, s, start, at) {
            Err(e) => Err(e),
            Ok(p) => skip_items(item, s, start, p, (n - 1) as nat),
        }
    }
}

fn read_flag(data: &[u8], start: usize, at: usize) -> (r: Result<bool, DeserializeError>)
    requires
        in_value(data@, start as int, at as int),
    ensures
        r == take_flag(data@, start as int, at as int),
        r is Ok ==> in_value(data@, start as int, at + 1),
{
    match check_read(data, start, at, 1) {
        Some(e) => Err(e),
        None => if data[at] <= 1 {
            Ok(data[at] == 1)
        } else {
            Err(DeserializeError { offset: at, kind: DeserializeErrorKind::InvalidData })
        },
    }
}

fn skip_many(item: &Shape, data: &[u8], start: usize, at: usize, n: u64) -> (r: Result<
    usize,
    DeserializeError,
>)
    requires
        in_value(data@, start as int, at as int),
    ensures
        match skip_items(*item, data@, start as int, at as int, n as nat) {
            Ok(next) => r == Ok::<usize, DeserializeError>(next as usize) && in_value(
                data@,
                start as int,
                next,
            ),
            Err(e) => r == Err::<usize, DeserializeError>(e),
        },
    decreases item, n + 1,
{
    let mut pos: usize = at;
    let mut i: u64 = 0;
    while i < n
        invariant
            i <= n,
            in_value(data@, start as int, pos as int),
            skip_items(*item, data@, start as int, at as int, n as nat) == skip_items(
                *item,
                data@,
                start as int,
                pos as int,
                (n - i) as nat,
            ),
        decreases n - i,
    {
        match skip_value(item, data, start, pos) {
            Err(e) => {
                return Err(e);
            },
            Ok(next) => {
                pos = next;
                i += 1;
            },
        }
    }
    Ok(pos)
}

fn skip_value(shape: &Shape, data: &[u8], start: usize, at: usize) -> (r: Result<
    usize,
    DeserializeError,
>)
    requires
        in_value(data@, start as int, at as int),
    ensures
        match skip(*shape, data@, start as int, at as int) {
            Ok(next) => r == Ok::<usize, DeserializeError>(next as usize) && in_value(
                data@,
                start as int,
                next,
            ),
            Err(e) => r == Err::<usize, DeserializeError>(e),
        },
    decreases shape, 0nat,
{
    match shape {
        Shape::Fixed(n) => match check_read(data, start, at, *n) {
            Some(e) => Err(e),
            None => Ok(at + *n as usize),
        },
        Shape::Bool => match read_flag(data, start, at) {
            Err(e) => Err(e),
            Ok(_) => Ok(at + 1),
        },
        Shape::Bytes => match read_word(data, start, at) {
            Err(e) => Err(e),
            Ok((n, p)) => match check_read(data, start, p, n) {
                Some(e) => Err(e),
                None => Ok(p + n as usize),
            },
        },
        Shape::Optional(inner) => match read_flag(data, start, at) {
            Err(e) => Err(e),
            Ok(false) => Ok(at + 1),
            Ok(true) => skip_value(inner, data, start, at + 1),
        },
        Shape::List(item) => match read_word(data, start, at) {
            Err(e) => Err(e),
            Ok((n, p)) => skip_many(item, data, start, p, n),
        },
        Shape::Repeat(n, item) => skip_many(item, data, start, at, *n),
        Shape::Pair(first, second) => match skip_value(first, data, start, at) {
            Err(e) => Err(e),
            Ok(p) => skip_value(second, data, start, p),
        },
    }
}

/// The offset behind the value of shape `shape` that starts at `start`.
/// Nothing can be read behind the end of the bytes.
pub open spec fn value_end(shape: Shape, s: Seq<u8>, start: int) -> Result<int, DeserializeError> {
    if start > s.len() {
        Err(DeserializeError { offset: start as usize, kind: DeserializeErrorKind::UnexpectedEof })
    } else {
        skip(shape, s, start, start)
    }
}

/// Passes over the value of shape `shape` that starts at `start`, and gives
/// the offset behind it.
pub fn skip_shape(shape: &Shape, data: &[u8], start: usize) -> (r: Result<usize, DeserializeError>)
    ensures
        match value_end(*shape, data@, start as int) {
            Ok(next) => r matches Ok(end) && end == next && start <= end <= data@.len(),
            Err(e) => r == Err::<usize, DeserializeError>(e),
        },
{
    if start > data.len() {
        return Err(DeserializeError { offset: start, kind: DeserializeErrorKind::UnexpectedEof });
    }
    skip_value(shape, data, start, start)
}

/// One value and another behind it.
pub open spec fn pair_shape(first: Shape, second: Shape) -> Shape {
    Shape::Pair(Box::new(first), Box::new(second))
}

/// A list of values, behind their number.
pub open spec fn list_shape(item: Shape) -> Shape {
    Shape::List(Box::new(item))
}

/// A value that may be missing.
pub open spec fn optional_shape(inner: Shape) -> Shape {
    Shape::Optional(Box::new(inner))
}

/// `n` values, one behind the other.
pub open spec fn repeat_shape(n: u64, item: Shape) -> Shape {
    Shape::Repeat(n, Box::new(item))
}

pub fn pair(first: Shape, second: Shape) -> (shape: Shape)
    ensures
        shape == pair_shape(first, second),
{
    Shape::Pair(Box::new(first), Box::new(second))
}

pub fn list(item: Shape) -> (shape: Shape)
    ensures
        shape == list_shape(item),
{
    Shape::List(Box::new(item))
}

pub fn optional(inner: Shape) -> (shape: Shape)
    ensures
        shape == optional_shape(inner),
{
    Shape::Optional(Box::new(inner))
}

pub fn repeat(n: u64, item: Shape) -> (shape: Shape)
    ensures
        shape == repeat_shape(n, item),
{
    Shape::Repeat(n, Box::new(item))
}

/// A 64-bit integer or float.
pub open spec fn word_shape() -> Shape {
    Shape::Fixed(8)
}

fn word() -> (shape: Shape)
    ensures
        shape == word_shape(),
{
    Shape::Fixed(8)
}

/// A key or a hash.
pub open spec fn key_shape() -> Shape {
    Shape::Fixed(32)
}

fn key() -> (shape: Shape)
    ensures
        shape == key_shape(),
{
    Shape::Fixed(32)
}

/// The age of a blockhash: fee calculator, hash index, timestamp.
pub open spec fn hash_age_shape() -> Shape {
    repeat_shape(3, word_shape())
}

fn hash_age() -> (shape: Shape)
    ensures
        shape == hash_age_shape(),
{
    repeat(3, word())
}

/// The blockhash queue: last hash index, last hash, ages by hash, greatest age.
pub open spec fn blockhash_queue_shape() -> Shape {
    pair_shape(word_shape(), pair_shape(optional_shape(key_shape()), pair_shape(list_shape(pair_shape(key_shape(), hash_age_shape())), word_shape())))
}

fn blockhash_queue() -> (shape: Shape)
    ensures
        shape == blockhash_queue_shape(),
{
    pair(word(), pair(optional(key()), pair(list(pair(key(), hash_age())), word())))
}

/// Ancestors, and hard forks: slots with a number each.
pub open spec fn slot_pairs_shape() -> Shape {
    list_shape(repeat_shape(2, word_shape()))
}

fn slot_pairs() -> (shape: Shape)
    ensures
        shape == slot_pairs_shape(),
{
    list(repeat(2, word()))
}

/// The fee rate governor: four rates and the burn percentage.
pub open spec fn fee_rate_governor_shape() -> Shape {
    pair_shape(repeat_shape(4, word_shape()), Shape::Fixed(1))
}

fn fee_rate_governor() -> (shape: Shape)
    ensures
        shape == fee_rate_governor_shape(),
{
    pair(repeat(4, word()), Shape::Fixed(1))
}

/// The epoch schedule: slots per epoch, leader schedule offset, warm-up flag, first normal epoch and slot.
pub open spec fn epoch_schedule_shape() -> Shape {
    pair_shape(repeat_shape(2, word_shape()), pair_shape(Shape::Bool, repeat_shape(2, word_shape())))
}

fn epoch_schedule() -> (shape: Shape)
    ensures
        shape == epoch_schedule_shape(),
{
    pair(repeat(2, word()), pair(Shape::Bool, repeat(2, word())))
}

/// The rent collector: epoch, epoch schedule, slots per year, and the rent with its rate, threshold and burn percentage.
pub open spec fn rent_collector_shape() -> Shape {
    pair_shape(word_shape(), pair_shape(epoch_schedule_shape(), pair_shape(repeat_shape(3, word_shape()), Shape::Fixed(1))))
}

fn rent_collector() -> (shape: Shape)
    ensures
        shape == rent_collector_shape(),
{
    pair(word(), pair(epoch_schedule(), pair(repeat(3, word()), Shape::Fixed(1))))
}

/// An account: lamports, data, owner, executable flag, rent epoch.
pub open spec fn account_shape() -> Shape {
    pair_shape(word_shape(), pair_shape(Shape::Bytes, pair_shape(key_shape(), pair_shape(Shape::Bool, word_shape()))))
}

fn account() -> (shape: Shape)
    ensures
        shape == account_shape(),
{
    pair(word(), pair(Shape::Bytes, pair(key(), pair(Shape::Bool, word()))))
}

/// Stakes: vote accounts with their stake, stake delegations, an unused number, the epoch, and the stake history.
pub open spec fn stakes_shape() -> Shape {
    pair_shape(
        list_shape(pair_shape(key_shape(), pair_shape(word_shape(), account_shape()))),
        pair_shape(list_shape(pair_shape(key_shape(), pair_shape(key_shape(), repeat_shape(4, word_shape())))), pair_shape(repeat_shape(2, word_shape()), list_shape(repeat_shape(4, word_shape())))),
    )
}

fn stakes() -> (shape: Shape)
    ensures
        shape == stakes_shape(),
{
    pair(
        list(pair(key(), pair(word(), account()))),
        pair(list(pair(key(), pair(key(), repeat(4, word())))), pair(repeat(2, word()), list(repeat(4, word())))),
    )
}

/// Three collections of keys that are no longer used.
pub open spec fn unused_accounts_shape() -> Shape {
    pair_shape(list_shape(key_shape()), pair_shape(list_shape(key_shape()), list_shape(pair_shape(key_shape(), word_shape()))))
}

fn unused_accounts() -> (shape: Shape)
    ensures
        shape == unused_accounts_shape(),
{
    pair(list(key()), pair(list(key()), list(pair(key(), word()))))
}

/// The stakes of an epoch: stakes, total stake, vote accounts by node, authorized voters.
pub open spec fn epoch_stakes_shape() -> Shape {
    pair_shape(
        stakes_shape(),
        pair_shape(word_shape(), pair_shape(list_shape(pair_shape(key_shape(), pair_shape(list_shape(key_shape()), word_shape()))), list_shape(repeat_shape(2, key_shape())))),
    )
}

fn epoch_stakes() -> (shape: Shape)
    ensures
        shape == epoch_stakes_shape(),
{
    pair(
        stakes(),
        pair(word(), pair(list(pair(key(), pair(list(key()), word()))), list(repeat(2, key())))),
    )
}

/// The bank, field by field.
pub open spec fn versioned_bank_shape() -> Shape {
    let shape =
        // blockhash queue
        pair_shape(blockhash_queue_shape(),
        // ancestors
        pair_shape(slot_pairs_shape(),
        // hash, parent hash
        pair_shape(repeat_shape(2, key_shape()),
        // parent slot
        pair_shape(word_shape(),
        // hard forks
        pair_shape(slot_pairs_shape(),
        // transaction count, tick height, signature count, capitalization, max tick height
        pair_shape(repeat_shape(5, word_shape()),
        // hashes per tick
        pair_shape(optional_shape(word_shape()),
        // ticks per slot
        pair_shape(word_shape(),
        // nanoseconds per slot
        pair_shape(Shape::Fixed(16),
        // genesis creation time, slots per year, accounts data length, slot, epoch, block height
        pair_shape(repeat_shape(6, word_shape()),
        // collector id
        pair_shape(key_shape(),
        // collector fees, fee calculator
        pair_shape(repeat_shape(2, word_shape()),
        // fee rate governor
        pair_shape(fee_rate_governor_shape(),
        // collected rent
        pair_shape(word_shape(),
        // rent collector
        pair_shape(rent_collector_shape(),
        // epoch schedule
        pair_shape(epoch_schedule_shape(),
        // inflation
        pair_shape(repeat_shape(6, word_shape()),
        // stakes
        pair_shape(stakes_shape(),
        // unused accounts
        pair_shape(unused_accounts_shape(),
        // epoch stakes
        pair_shape(list_shape(pair_shape(word_shape(), epoch_stakes_shape())),
        // whether the bank is a delta
        Shape::Bool
        ))))))))))))))))))));
    shape
}

/// The shape of the bank.
pub fn versioned_bank() -> (shape: Shape)
    ensures
        shape == versioned_bank_shape(),
{
    let shape =
        // blockhash queue
        pair(blockhash_queue(),
        // ancestors
        pair(slot_pairs(),
        // hash, parent hash
        pair(repeat(2, key()),
        // parent slot
        pair(word(),
        // hard forks
        pair(slot_pairs(),
        // transaction count, tick height, signature count, capitalization, max tick height
        pair(repeat(5, word()),
        // hashes per tick
        pair(optional(word()),
        // ticks per slot
        pair(word(),
        // nanoseconds per slot
        pair(Shape::Fixed(16),
        // genesis creation time, slots per year, accounts data length, slot, epoch, block height
        pair(repeat(6, word()),
        // collector id
        pair(key(),
        // collector fees, fee calculator
        pair(repeat(2, word()),
        // fee rate governor
        pair(fee_rate_governor(),
        // collected rent
        pair(word(),
        // rent collector
        pair(rent_collector(),
        // epoch schedule
        pair(epoch_schedule(),
        // inflation
        pair(repeat(6, word()),
        // stakes
        pair(stakes(),
        // unused accounts
        pair(unused_accounts(),
        // epoch stakes
        pair(list(pair(word(), epoch_stakes())),
        // whether the bank is a delta
        Shape::Bool
        ))))))))))))))))))));
    shape
}

/// What the manifest holds behind its bank: the accounts-DB fields that
/// start where the bank ends.
pub open spec fn manifest_at(s: Seq<u8>) -> Result<AccountsDbFieldsView, DeserializeError> {
    match value_end(versioned_bank_shape(), s, 0) {
        Err(e) => Err(e),
        Ok(bank_end) => match accounts_db_fields_at(s, bank_end) {
            Err(e) => Err(e),
            Ok((fields, _)) => Ok(fields),
        },
    }
}

/// Reads a manifest: passes over the bank and reads the accounts-DB fields
/// behind it.
pub fn parse_manifest(data: &[u8]) -> (r: Result<AccountsDbFields, DeserializeError>)
    ensures
        match manifest_at(data@) {
            Ok(v) => r matches Ok(fields) && fields@ == v,
            Err(e) => r == Err::<AccountsDbFields, DeserializeError>(e),
        },
{
    let bank_end = match skip_shape(&versioned_bank(), data, 0) {
        Ok(x) => x,
        Err(e) => { return Err(e); },
    };
    match parse_accounts_db_fields(data, bank_end) {
        Ok((fields, _)) => Ok(fields),
        Err(e) => Err(e),
    }
}

} // verus!
