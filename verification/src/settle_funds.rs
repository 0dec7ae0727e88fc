//! Settling a trader's funds: the free balances and the referrer rebates the
//! market holds for the trader leave the market's books, and the transfers
//! that pay them out are returned.
use vstd::prelude::*;

use crate::fixed_point::{fits_u64, floor_to_u64, floor_units, Fixed};
use crate::state::{Market, MarketIndex, Position};

verus! {

/// The token transfers out of the market that settling makes.
#[derive(Clone, Copy, Debug, PartialEq, Eq, Structural)]
pub struct SettleTransfers {
    /// Quote tokens paid to the referrer account.
    pub referrer_rebates: Option<u64>,
    /// Base tokens paid to the trader.
    pub base: Option<u64>,
    /// Quote tokens paid to the trader.
    pub quote: Option<u64>,
}

/// Settling stays within the number types: the free balances are whole
/// non-negative `u64` amounts once rounded down, and the market's totals cover
/// what leaves them.
pub open spec fn settle_in_range(market: Market, position: Position, has_referrer: bool) -> bool {
    let base = floor_units(position.base_free_native.bits as int);
    let quote = floor_units(position.quote_free_native.bits as int);
    let rebates = position.referrer_rebates_accrued as int;
    &&& fits_u64(base)
    &&& fits_u64(quote)
    &&& !has_referrer ==> market.quote_fees_accrued + rebates <= u64::MAX
    &&& market.referrer_rebates_accrued >= rebates
    &&& market.base_deposit_total >= base
    &&& market.quote_deposit_total >= quote
}

/// Whether settling stays within the number types (where it does not,
/// settling overflows).
pub fn settle_fits(market: &Market, position: &Position, has_referrer: bool) -> (r: bool)
    ensures
        r == settle_in_range(*market, *position, has_referrer),
{
    let base = match floor_to_u64(position.base_free_native.bits) {
        None => return false,
        Some(b) => b,
    };
    let quote = match floor_to_u64(position.quote_free_native.bits) {
        None => return false,
        Some(q) => q,
    };
    let rebates = position.referrer_rebates_accrued;
    if !has_referrer && market.quote_fees_accrued.checked_add(rebates).is_none() {
        return false;
    }
    market.referrer_rebates_accrued >= rebates && market.base_deposit_total >= base
        && market.quote_deposit_total >= quote
}

/// The market after settling: the trader's free balances leave the deposit
/// totals and the rebates leave the owed rebates; without a referrer account
/// the rebates become fees of the market.
pub open spec fn market_after_settle(market: Market, position: Position, has_referrer: bool) -> Market {
    let rebates = position.referrer_rebates_accrued as int;
    Market {
        quote_fees_accrued: if has_referrer {
            market.quote_fees_accrued
        } else {
            (market.quote_fees_accrued + rebates) as u64
        },
        referrer_rebates_accrued: (market.referrer_rebates_accrued - rebates) as u64,
        base_deposit_total: (market.base_deposit_total - floor_units(
            position.base_free_native.bits as int,
        )) as u64,
        quote_deposit_total: (market.quote_deposit_total - floor_units(
            position.quote_free_native.bits as int,
        )) as u64,
        ..market
    }
}

/// The position after settling: nothing free and no rebates left.
pub open spec fn position_after_settle(position: Position) -> Position {
    Position {
        base_free_native: Fixed { bits: 0 },
        quote_free_native: Fixed { bits: 0 },
        referrer_rebates_accrued: 0,
        ..position
    }
}

/// The transfers settling makes: the rebates to the referrer account when
/// there is one and they are positive, and each positive free balance,
/// rounded down, to the trader.
pub open spec fn settle_transfers(position: Position, has_referrer: bool) -> SettleTransfers {
    let rebates = position.referrer_rebates_accrued;
    SettleTransfers {
        referrer_rebates: if has_referrer && rebates > 0 {
            Some(rebates)
        } else {
            None
        },
        base: if position.base_free_native.bits > 0 {
            Some(floor_units(position.base_free_native.bits as int) as u64)
        } else {
            None
        },
        quote: if position.quote_free_native.bits > 0 {
            Some(floor_units(position.quote_free_native.bits as int) as u64)
        } else {
            None
        },
    }
}

/// The ASCII bytes of `Market`, the first seed of a market's signing address.
pub open spec fn market_seed_prefix() -> Seq<u8> {
    seq![77u8, 97u8, 114u8, 107u8, 101u8, 116u8]
}

/// The seeds with which the market signs the transfers out of its vaults.
pub fn market_signer_seeds(market_index: MarketIndex, bump: u8) -> (r: Vec<Vec<u8>>)
    ensures
        r@.len() == 3,
        r@[0]@ == market_seed_prefix(),
        r@[1]@ == vstd::bytes::spec_u32_to_le_bytes(market_index),
        r@[2]@ == seq![bump],
{
    let mut r: Vec<Vec<u8>> = Vec::new();
    r.push(vec![77u8, 97u8, 114u8, 107u8, 101u8, 116u8]);
    r.push(vstd::bytes::u32_to_le_bytes(market_index));
    r.push(vec![bump]);
    r
}

/// Settles a trader's funds on a market; `has_referrer` tells whether a
/// referrer account was passed to receive the rebates.
pub fn settle_funds(market: &mut Market, position: &mut Position, has_referrer: bool) -> (t: SettleTransfers)
    requires
        settle_in_range(*old(market), *old(position), has_referrer),
    ensures
        *final(market) == market_after_settle(*old(market), *old(position), has_referrer),
        *final(position) == position_after_settle(*old(position)),
        t == settle_transfers(*old(position), has_referrer),
{
    let rebates = position.referrer_rebates_accrued;
    if !has_referrer {
        market.quote_fees_accrued = market.quote_fees_accrued + rebates;
    }
    market.referrer_rebates_accrued = market.referrer_rebates_accrued - rebates;
    market.base_deposit_total = market.base_deposit_total - position.base_free_native.to_num_u64();
    market.quote_deposit_total = market.quote_deposit_total - position.quote_free_native.to_num_u64();

    let referrer_rebates = if has_referrer && rebates > 0 {
        Some(rebates)
    } else {
        None
    };
    let base = if position.base_free_native.is_positive() {
        Some(position.base_free_native.to_num_u64())
    } else {
        None
    };
    let quote = if position.quote_free_native.is_positive() {
        Some(position.quote_free_native.to_num_u64())
    } else {
        None
    };

    position.base_free_native = Fixed::zero();
    position.quote_free_native = Fixed::zero();
    position.referrer_rebates_accrued = 0;

    SettleTransfers { referrer_rebates, base, quote }
}

pub open spec fn amount_or_zero(a: Option<u64>) -> int {
    match a {
        Some(x) => x as int,
        None => 0,
    }
}

/// Settling moves tokens, it does not create or destroy them: each deposit
/// total falls by exactly what is paid to the trader, the owed rebates fall by
/// exactly what is paid to the referrer, and without a referrer account the
/// rebates move to the market's fees.
pub proof fn law_settle_conserves_funds(market: Market, position: Position, has_referrer: bool)
    requires
        settle_in_range(market, position, has_referrer),
    ensures
        ({
            let after = market_after_settle(market, position, has_referrer);
            let t = settle_transfers(position, has_referrer);
            &&& market.base_deposit_total == after.base_deposit_total + amount_or_zero(t.base)
            &&& market.quote_deposit_total == after.quote_deposit_total + amount_or_zero(t.quote)
            &&& has_referrer ==> {
                &&& market.referrer_rebates_accrued == after.referrer_rebates_accrued
                    + amount_or_zero(t.referrer_rebates)
                &&& after.quote_fees_accrued == market.quote_fees_accrued
            }
            &&& !has_referrer ==> {
                &&& t.referrer_rebates is None
                &&& market.referrer_rebates_accrued + market.quote_fees_accrued
                    == after.referrer_rebates_accrued + after.quote_fees_accrued
            }
        }),
{
    assert(position.base_free_native.bits <= 0 ==> floor_units(position.base_free_native.bits as int)
        == 0);
    assert(position.quote_free_native.bits <= 0 ==> floor_units(
        position.quote_free_native.bits as int,
    ) == 0);
}

/// Settling a settled position again pays nothing and leaves the market as it is.
pub proof fn law_settle_twice_pays_nothing(market: Market, position: Position, has_referrer: bool)
    requires
        settle_in_range(market, position, has_referrer),
    ensures
        ({
            let market1 = market_after_settle(market, position, has_referrer);
            let position1 = position_after_settle(position);
            &&& settle_in_range(market1, position1, has_referrer)
            &&& settle_transfers(position1, has_referrer) == SettleTransfers {
                referrer_rebates: None,
                base: None,
                quote: None,
            }
            &&& market_after_settle(market1, position1, has_referrer) == market1
            &&& position_after_settle(position1) == position1
        }),
{
}

} // verus!
