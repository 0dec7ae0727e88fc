//! The exchange state that the instructions read and update: orders, a
//! trader's position on a market, and the market's balances and settings.
use vstd::prelude::*;

use crate::fixed_point::Fixed;

verus! {

/// An account address (32 bytes).
pub type Pubkey = [u8; 32];

/// The index that tells a market apart from the others.
pub type MarketIndex = u32;

/// Whether two addresses are the same.
pub fn same_key(a: &Pubkey, b: &Pubkey) -> (r: bool)
    ensures
        r == (a@ == b@),
{
    let mut i: usize = 0;
    while i < 32
        invariant
            0 <= i <= 32,
            forall|j: int| 0 <= j < i ==> a@[j] == b@[j],
        decreases 32 - i,
    {
        if a[i] != b[i] {
            assert(a@[i as int] != b@[i as int]);
            return false;
        }
        i = i + 1;
    }
    assert(a@ =~= b@);
    true
}

/// Which side of the book an order is on.
#[derive(Clone, Copy, Debug, PartialEq, Eq, Structural)]
pub enum Side {
    Bid,
    Ask,
}

/// How a resting order may be posted to the book.
#[derive(Clone, Copy, Debug, PartialEq, Eq, Structural)]
pub enum PostOrderType {
    Limit,
    PostOnly,
    PostOnlySlide,
}

/// The kind of an order and its price parameters.
#[derive(Clone, Copy, Debug, PartialEq, Eq, Structural)]
pub enum OrderParams {
    Market,
    ImmediateOrCancel { price_lots: i64 },
    Fixed { price_lots: i64, order_type: PostOrderType },
    OraclePegged { price_offset_lots: i64, order_type: PostOrderType, peg_limit: i64 },
}

/// An order as a trader submits it.
#[derive(Clone, Copy, Debug, PartialEq, Eq, Structural)]
pub struct Order {
    pub side: Side,
    pub max_base_lots: i64,
    pub max_quote_lots_including_fees: i64,
    pub client_order_id: u64,
    pub reduce_only: bool,
    pub time_in_force: u16,
    pub params: OrderParams,
}

/// A trader's position on one market.
#[derive(Clone, Copy, Debug, PartialEq, Eq, Structural)]
pub struct Position {
    /// Filled base position, in lots.
    pub base_position_lots: i64,
    /// Quote position, in native units.
    pub quote_position_native: Fixed,
    /// Base lots on open bids.
    pub bids_base_lots: i64,
    /// Base lots on open asks.
    pub asks_base_lots: i64,
    /// Base tokens held by the exchange for the trader and free to withdraw.
    pub base_free_native: Fixed,
    /// Quote tokens held by the exchange for the trader and free to withdraw.
    pub quote_free_native: Fixed,
    /// Quote tokens owed to the trader's referrer.
    pub referrer_rebates_accrued: u64,
}

impl Position {
    /// The empty position.
    pub fn new() -> (p: Position)
        ensures
            p == Position::empty(),
    {
        Position {
            base_position_lots: 0,
            quote_position_native: Fixed::zero(),
            bids_base_lots: 0,
            asks_base_lots: 0,
            base_free_native: Fixed::zero(),
            quote_free_native: Fixed::zero(),
            referrer_rebates_accrued: 0,
        }
    }

    pub open spec fn empty() -> Position {
        Position {
            base_position_lots: 0,
            quote_position_native: Fixed { bits: 0 },
            bids_base_lots: 0,
            asks_base_lots: 0,
            base_free_native: Fixed { bits: 0 },
            quote_free_native: Fixed { bits: 0 },
            referrer_rebates_accrued: 0,
        }
    }

    /// The base position that counts for limits, in lots.
    pub fn effective_base_position_lots(&self) -> (r: i64)
        ensures
            r == self.base_position_lots,
    {
        self.base_position_lots
    }

    pub fn base_position_lots(&self) -> (r: i64)
        ensures
            r == self.base_position_lots,
    {
        self.base_position_lots
    }

    pub fn quote_position_native(&self) -> (r: Fixed)
        ensures
            r == self.quote_position_native,
    {
        self.quote_position_native
    }
}

impl Default for Position {
    fn default() -> (p: Position)
        ensures
            p == Position::empty(),
    {
        Position::new()
    }
}

/// A market: its identity, lot sizes, fees and the balances it holds.
#[derive(Clone, Copy, Debug)]
pub struct Market {
    pub admin: Pubkey,
    pub event_queue: Pubkey,
    pub market_index: MarketIndex,
    pub bump: u8,
    pub base_lot_size: i64,
    pub quote_lot_size: i64,
    pub maker_fee: Fixed,
    pub taker_fee: Fixed,
    /// Base tokens deposited in the market's vault.
    pub base_deposit_total: u64,
    /// Quote tokens deposited in the market's vault.
    pub quote_deposit_total: u64,
    pub quote_fees_accrued: u64,
    pub referrer_rebates_accrued: u64,
}

/// Why an instruction is refused.
#[derive(Clone, Copy, Debug, PartialEq, Eq, Structural)]
pub enum OpenBookError {
    /// An account that must sign did not.
    AccountNotSigner,
    /// A token account that does not exist.
    AccountNotInitialized,
    /// An account is owned by another program than the one it must be owned by.
    AccountOwnedByWrongProgram,
    /// An account's data is too short to hold its type discriminator.
    AccountDiscriminatorNotFound,
    /// An account's data holds the discriminator of another type.
    AccountDiscriminatorMismatch,
    /// An account's data does not decode.
    InvalidAccountData,
    /// A token account is not initialized.
    UninitializedAccount,
    /// A program account is not the program it must be.
    InvalidProgramId,
    /// A program account is not executable.
    InvalidProgramExecutable,
    /// An account that must be writable is not.
    ConstraintMut,
    /// An account's stored reference does not name the account passed.
    ConstraintHasOne,
    /// An account is not at the address derived from its seeds.
    ConstraintSeeds,
    /// A value is below its lower bound.
    RequireGteViolated,
    /// The signer may not act for the account.
    SomeError,
}

} // verus!
