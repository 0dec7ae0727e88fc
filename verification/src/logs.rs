//! The events the program logs.
use vstd::prelude::*;

use crate::state::{Market, MarketIndex, Position, Pubkey};

verus! {

/// A trader's balances on a market.
#[derive(Clone, Copy, Debug)]
pub struct BalanceLog {
    pub open_orders_acc: Pubkey,
    pub base_position: i64,
    /// The raw bits of the fixed-point quote position.
    pub quote_position: i128,
}

/// A deposit into an open-orders account.
#[derive(Clone, Copy, Debug)]
pub struct DepositLog {
    pub open_orders_acc: Pubkey,
    pub signer: Pubkey,
    pub quantity: u64,
}

/// The settings of a new market.
#[derive(Clone, Copy, Debug)]
pub struct MarketMetaDataLog {
    pub market: Pubkey,
    pub market_index: MarketIndex,
    pub base_decimals: u8,
    pub quote_decimals: u8,
    pub base_lot_size: i64,
    pub quote_lot_size: i64,
    pub oracle: Pubkey,
}

/// The balance event for the position `p` of the account `open_orders_acc`.
pub fn emit_balances(open_orders_acc: Pubkey, p: &Position, _m: &Market) -> (log: BalanceLog)
    ensures
        log.open_orders_acc == open_orders_acc,
        log.base_position == p.base_position_lots,
        log.quote_position == p.quote_position_native.bits,
{
    BalanceLog {
        open_orders_acc,
        base_position: p.base_position_lots(),
        quote_position: p.quote_position_native().bits,
    }
}

} // verus!
