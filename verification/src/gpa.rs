//! Queries for the program's accounts: the byte filters that select, among
//! all accounts of the program, those of one kind and owner or group, and the
//! part of an account's data that follows its 8-byte type discriminator.
use vstd::prelude::*;

use crate::state::Pubkey;

verus! {

/// Selects accounts whose data holds `bytes` at `offset`.
#[derive(Clone, Debug)]
pub struct BytesFilter {
    pub offset: usize,
    pub bytes: Vec<u8>,
}

/// Offset of an account's type discriminator in its data.
pub const DISCRIMINATOR_OFFSET: usize = 0;

/// Offset, in an account's data, of the first field after the discriminator.
pub const FIRST_FIELD_OFFSET: usize = 8;

pub open spec fn is_filter(f: BytesFilter, offset: int, bytes: Seq<u8>) -> bool {
    f.offset == offset && f.bytes@ == bytes
}

pub fn bytes_filter(offset: usize, bytes: &[u8]) -> (f: BytesFilter)
    ensures
        is_filter(f, offset as int, bytes@),
{
    BytesFilter { offset, bytes: vstd::slice::slice_to_vec(bytes) }
}

/// The filters that select the open-orders accounts of `owner`: the
/// account type's discriminator first, then the owner in the first field.
pub fn open_orders_account_filters(discriminator: &[u8], owner: &Pubkey) -> (r: Vec<BytesFilter>)
    ensures
        r@.len() == 2,
        is_filter(r@[0], 0, discriminator@),
        is_filter(r@[1], 8, owner@),
{
    let mut r: Vec<BytesFilter> = Vec::new();
    r.push(bytes_filter(DISCRIMINATOR_OFFSET, discriminator));
    r.push(bytes_filter(FIRST_FIELD_OFFSET, owner.as_slice()));
    r
}

/// The filters that select the accounts of one type that also pass `filters`:
/// the type's discriminator filter, then `filters` in their order.
pub fn anchor_account_filters(discriminator: &[u8], filters: Vec<BytesFilter>) -> (r: Vec<BytesFilter>)
    ensures
        r@.len() == filters@.len() + 1,
        is_filter(r@[0], 0, discriminator@),
        r@.subrange(1, r@.len() as int) == filters@,
{
    let mut filters = filters;
    let mut r: Vec<BytesFilter> = Vec::new();
    r.push(bytes_filter(DISCRIMINATOR_OFFSET, discriminator));
    r.append(&mut filters);
    r
}

/// The filters that select the markets of `group`: the market type's
/// discriminator, then the group in the first field.
pub fn market_filters(discriminator: &[u8], group: &Pubkey) -> (r: Vec<BytesFilter>)
    ensures
        r@.len() == 2,
        is_filter(r@[0], 0, discriminator@),
        is_filter(r@[1], 8, group@),
{
    let mut extra: Vec<BytesFilter> = Vec::new();
    extra.push(bytes_filter(FIRST_FIELD_OFFSET, group.as_slice()));
    let r = anchor_account_filters(discriminator, extra);
    assert(r@[1] == r@.subrange(1, r@.len() as int)[0]);
    r
}

/// An account's data after its 8-byte discriminator.
pub fn account_body(data: &[u8]) -> (body: &[u8])
    requires
        data@.len() >= 8,
    ensures
        body@ == data@.subrange(8, data@.len() as int),
{
    vstd::slice::slice_subrange(data, FIRST_FIELD_OFFSET, data.len())
}

} // verus!
