//! Placing an order: checking the order, locking the funds the order needs
//! from the trader's free balance, and working out the deposit that must be
//! transferred into the market's vault for the rest.  Also the size limit of
//! reduce-only orders.
use vstd::prelude::*;

use crate::fixed_point::{
    ceil_to_u64, ceil_units, fits_i128, fits_u64, floor_to_u64, floor_units, int_bits,
    lemma_ceil_units_bounds, lemma_floor_units_bounds, lemma_int_bits_floor, lemma_mul_int_bits,
    mul_floor, Fixed, FRAC_ONE,
};
use crate::state::{Market, OpenBookError, Order, OrderParams, Position, PostOrderType, Side};

verus! {

/// What matching the order against the book produced.
#[derive(Clone, Copy, Debug, PartialEq, Eq, Structural)]
pub struct OrderFill {
    /// The id of the part of the order left resting on the book, if any.
    pub order_id: Option<u128>,
    pub total_base_taken_native: Fixed,
    pub total_quote_taken_native: Fixed,
    /// Base lots left resting on the book.
    pub placed_quantity: i64,
}

/// One of the market's two token vaults.
#[derive(Clone, Copy, Debug, PartialEq, Eq, Structural)]
pub enum Vault {
    Base,
    Quote,
}

/// A transfer of tokens from the trader into a vault of the market.
#[derive(Clone, Copy, Debug, PartialEq, Eq, Structural)]
pub struct TokenDeposit {
    pub vault: Vault,
    pub amount: u64,
}

/// The result of placing an order.
#[derive(Clone, Copy, Debug, PartialEq, Eq, Structural)]
pub struct PlacedOrder {
    pub order_id: Option<u128>,
    pub deposit: Option<TokenDeposit>,
}

/// The price, in quote lots per base lot, carried in the high half of an order id.
pub open spec fn order_price_lots(order_id: u128) -> u64 {
    (order_id >> 64u32) as u64
}

/// A post-only order that would have crossed the book, so nothing was posted.
pub open spec fn posted_nothing(order_type: PostOrderType, fill: OrderFill) -> bool {
    order_type == PostOrderType::PostOnly && fill.order_id is None
}

/// The price, in quote lots, at which a resting bid is reserved.
pub open spec fn bid_price_lots(params: OrderParams, fill: OrderFill) -> int {
    match params {
        OrderParams::OraclePegged { peg_limit, .. } => peg_limit as int,
        _ => order_price_lots(fill.order_id.unwrap()) as int,
    }
}

/// The quote (raw fixed-point bits) that a bid needs: what it took from the
/// book, plus, for a resting limit or pegged bid, its resting size at its price.
pub open spec fn bid_reserved(order: Order, fill: OrderFill, market: Market) -> int {
    let taken = fill.total_quote_taken_native.bits as int;
    match order.params {
        OrderParams::Market | OrderParams::ImmediateOrCancel { .. } => taken,
        OrderParams::Fixed { order_type, .. } | OrderParams::OraclePegged { order_type, .. } => {
            if posted_nothing(order_type, fill) {
                0
            } else {
                taken + int_bits(
                    fill.placed_quantity * market.quote_lot_size * bid_price_lots(order.params, fill),
                )
            }
        },
    }
}

/// The base (raw fixed-point bits) that an ask needs: what it took from the
/// book, plus, for a resting limit or pegged ask, its resting size.
pub open spec fn ask_reserved(order: Order, fill: OrderFill, market: Market) -> int {
    let taken = fill.total_base_taken_native.bits as int;
    match order.params {
        OrderParams::Market | OrderParams::ImmediateOrCancel { .. } => taken,
        OrderParams::Fixed { order_type, .. } | OrderParams::OraclePegged { order_type, .. } => {
            if posted_nothing(order_type, fill) {
                0
            } else {
                taken + int_bits(fill.placed_quantity * market.base_lot_size)
            }
        },
    }
}

/// The part of the need that the free balance covers.
pub open spec fn locked(reserved: int, free: int) -> int {
    if reserved <= free {
        reserved
    } else {
        free
    }
}

/// The bits of the fee difference owed on the quote a bid took.
pub open spec fn bid_fee_bits(fill: OrderFill, market: Market) -> int {
    mul_floor(
        fill.total_quote_taken_native.bits as int,
        market.taker_fee.bits - market.maker_fee.bits,
    )
}

/// The increase of the quote deposit total that a bid causes.
pub open spec fn bid_deposit_increase(order: Order, fill: OrderFill, market: Market, position: Position) -> int {
    let reserved = bid_reserved(order, fill, market);
    let lock = locked(reserved, position.quote_free_native.bits as int);
    floor_units((reserved - lock) - bid_fee_bits(fill, market))
}

/// The transfer for a deposit (raw bits) into a vault: the deposit rounded up, if positive.
pub open spec fn deposit_transfer(vault: Vault, deposit: int) -> Option<TokenDeposit> {
    if deposit > 0 {
        Some(TokenDeposit { vault, amount: ceil_units(deposit) as u64 })
    } else {
        None
    }
}

/// The funds a resting bid needs are computed within `i128`, and a resting
/// limit bid has an order id to take its price from.
pub open spec fn bid_reserved_in_range(order: Order, fill: OrderFill, market: Market) -> bool {
    let taken = fill.total_quote_taken_native.bits as int;
    let lots = fill.placed_quantity * market.quote_lot_size;
    match order.params {
        OrderParams::Fixed { order_type, .. } | OrderParams::OraclePegged { order_type, .. } => {
            !posted_nothing(order_type, fill) ==> {
                &&& (order.params is Fixed ==> fill.order_id is Some)
                &&& fits_i128(int_bits(lots))
                &&& fits_i128(int_bits(lots * bid_price_lots(order.params, fill)))
                &&& fits_i128(taken + int_bits(lots * bid_price_lots(order.params, fill)))
            }
        },
        _ => true,
    }
}

/// The computation of a bid's funds stays within the number types.
pub open spec fn bid_in_range(order: Order, fill: OrderFill, market: Market, position: Position) -> bool {
    let reserved = bid_reserved(order, fill, market);
    let free = position.quote_free_native.bits as int;
    let lock = locked(reserved, free);
    let fee = bid_fee_bits(fill, market);
    &&& bid_reserved_in_range(order, fill, market)
    &&& fits_i128(free - lock)
    &&& fits_i128(reserved - lock)
    &&& fits_i128(market.taker_fee.bits - market.maker_fee.bits)
    &&& fits_i128(fee)
    &&& fits_i128((reserved - lock) - fee)
    &&& fits_u64(floor_units((reserved - lock) - fee))
    &&& market.quote_deposit_total + floor_units((reserved - lock) - fee) <= u64::MAX
    &&& reserved - lock > 0 ==> fits_i128(int_bits(ceil_units(reserved - lock))) && fits_u64(
        ceil_units(reserved - lock),
    )
}

/// The funds a resting ask needs are computed within `i128`.
pub open spec fn ask_reserved_in_range(order: Order, fill: OrderFill, market: Market) -> bool {
    let taken = fill.total_base_taken_native.bits as int;
    let lots = fill.placed_quantity * market.base_lot_size;
    match order.params {
        OrderParams::Fixed { order_type, .. } | OrderParams::OraclePegged { order_type, .. } => {
            !posted_nothing(order_type, fill) ==> {
                &&& fits_i128(int_bits(lots))
                &&& fits_i128(taken + int_bits(lots))
            }
        },
        _ => true,
    }
}

/// The computation of an ask's funds stays within the number types.
pub open spec fn ask_in_range(order: Order, fill: OrderFill, market: Market, position: Position) -> bool {
    let reserved = ask_reserved(order, fill, market);
    let free = position.base_free_native.bits as int;
    let lock = locked(reserved, free);
    &&& ask_reserved_in_range(order, fill, market)
    &&& fits_i128(free - lock)
    &&& fits_i128(reserved - lock)
    &&& fits_u64(floor_units(reserved - lock))
    &&& market.base_deposit_total + floor_units(reserved - lock) <= u64::MAX
    &&& reserved - lock > 0 ==> fits_i128(int_bits(ceil_units(reserved - lock))) && fits_u64(
        ceil_units(reserved - lock),
    )
}

/// The order is accepted: its limits are not negative and the signer may act
/// for the account.
pub open spec fn order_accepted(order: Order, owner_authorized: bool) -> bool {
    order.max_base_lots >= 0 && order.max_quote_lots_including_fees >= 0 && owner_authorized
}

/// The error an order is refused with, checked in this order.
pub open spec fn order_error(order: Order, owner_authorized: bool) -> OpenBookError {
    if order.max_base_lots < 0 || order.max_quote_lots_including_fees < 0 {
        OpenBookError::RequireGteViolated
    } else {
        OpenBookError::SomeError
    }
}

pub open spec fn place_in_range(order: Order, fill: OrderFill, market: Market, position: Position) -> bool {
    match order.side {
        Side::Bid => bid_in_range(order, fill, market, position),
        Side::Ask => ask_in_range(order, fill, market, position),
    }
}

/// The market after an accepted order.
pub open spec fn market_after_order(order: Order, fill: OrderFill, market: Market, position: Position) -> Market {
    match order.side {
        Side::Bid => Market {
            quote_deposit_total: (market.quote_deposit_total + bid_deposit_increase(
                order,
                fill,
                market,
                position,
            )) as u64,
            ..market
        },
        Side::Ask => {
            let reserved = ask_reserved(order, fill, market);
            let lock = locked(reserved, position.base_free_native.bits as int);
            Market {
                base_deposit_total: (market.base_deposit_total + floor_units(reserved - lock)) as u64,
                ..market
            }
        },
    }
}

/// The position after an accepted order: the locked funds leave the free balance.
pub open spec fn position_after_order(order: Order, fill: OrderFill, market: Market, position: Position) -> Position {
    match order.side {
        Side::Bid => {
            let free = position.quote_free_native.bits as int;
            let lock = locked(bid_reserved(order, fill, market), free);
            Position { quote_free_native: Fixed { bits: (free - lock) as i128 }, ..position }
        },
        Side::Ask => {
            let free = position.base_free_native.bits as int;
            let lock = locked(ask_reserved(order, fill, market), free);
            Position { base_free_native: Fixed { bits: (free - lock) as i128 }, ..position }
        },
    }
}

/// The deposit (raw bits) an accepted order needs beyond the locked funds.
pub open spec fn order_deposit(order: Order, fill: OrderFill, market: Market, position: Position) -> int {
    match order.side {
        Side::Bid => {
            let reserved = bid_reserved(order, fill, market);
            reserved - locked(reserved, position.quote_free_native.bits as int)
        },
        Side::Ask => {
            let reserved = ask_reserved(order, fill, market);
            reserved - locked(reserved, position.base_free_native.bits as int)
        },
    }
}

/// The result of an accepted order.
pub open spec fn placed_order(order: Order, fill: OrderFill, market: Market, position: Position) -> PlacedOrder {
    let vault = match order.side {
        Side::Bid => Vault::Quote,
        Side::Ask => Vault::Base,
    };
    PlacedOrder {
        order_id: fill.order_id,
        deposit: deposit_transfer(vault, order_deposit(order, fill, market, position)),
    }
}

fn bid_reserved_native(order: &Order, fill: &OrderFill, market: &Market, position: &Position) -> (r: Fixed)
    requires
        order.side == Side::Bid,
        bid_in_range(*order, *fill, *market, *position),
    ensures
        r.bits == bid_reserved(*order, *fill, *market),
{
    match order.params {
        OrderParams::Market | OrderParams::ImmediateOrCancel { .. } => fill.total_quote_taken_native,
        OrderParams::Fixed { order_type, .. } => {
            if order_type == PostOrderType::PostOnly && fill.order_id.is_none() {
                Fixed::zero()
            } else {
                let order_id = fill.order_id.unwrap();
                let price = Fixed::from_u64((order_id >> 64u32) as u64);
                proof {
                    lemma_mul_int_bits(fill.placed_quantity as int, market.quote_lot_size as int);
                    lemma_mul_int_bits(
                        fill.placed_quantity * market.quote_lot_size,
                        order_price_lots(order_id) as int,
                    );
                }
                let lots = Fixed::from_num(fill.placed_quantity).mul(Fixed::from_num(market.quote_lot_size));
                fill.total_quote_taken_native.add(lots.mul(price))
            }
        },
        OrderParams::OraclePegged { order_type, peg_limit, .. } => {
            if order_type == PostOrderType::PostOnly && fill.order_id.is_none() {
                Fixed::zero()
            } else {
                let price = Fixed::from_i64(peg_limit);
                proof {
                    lemma_mul_int_bits(fill.placed_quantity as int, market.quote_lot_size as int);
                    lemma_mul_int_bits(fill.placed_quantity * market.quote_lot_size, peg_limit as int);
                }
                let lots = Fixed::from_num(fill.placed_quantity).mul(Fixed::from_num(market.quote_lot_size));
                fill.total_quote_taken_native.add(lots.mul(price))
            }
        },
    }
}

fn ask_reserved_native(order: &Order, fill: &OrderFill, market: &Market, position: &Position) -> (r: Fixed)
    requires
        order.side == Side::Ask,
        ask_in_range(*order, *fill, *market, *position),
    ensures
        r.bits == ask_reserved(*order, *fill, *market),
{
    match order.params {
        OrderParams::Market | OrderParams::ImmediateOrCancel { .. } => fill.total_base_taken_native,
        OrderParams::Fixed { order_type, .. } | OrderParams::OraclePegged { order_type, .. } => {
            if order_type == PostOrderType::PostOnly && fill.order_id.is_none() {
                Fixed::zero()
            } else {
                proof {
                    lemma_mul_int_bits(fill.placed_quantity as int, market.base_lot_size as int);
                }
                fill.total_base_taken_native.add(
                    Fixed::from_num(fill.placed_quantity).mul(Fixed::from_num(market.base_lot_size)),
                )
            }
        },
    }
}

/// `int_bits(x)`, where it fits an `i128`.
fn checked_int_bits(x: i128) -> (r: Option<i128>)
    ensures
        match r {
            Some(b) => fits_i128(int_bits(x as int)) && b == int_bits(x as int),
            None => !fits_i128(int_bits(x as int)),
        },
{
    x.checked_mul(FRAC_ONE)
}

/// A value that does not fit an `i128` does not fit once scaled to raw bits.
proof fn lemma_int_bits_grows(x: int)
    requires
        !fits_i128(x),
    ensures
        !fits_i128(int_bits(x)),
{
}

/// `taken + int_bits(lots * price)` for `lots = placed * lot_size`, where each
/// step fits an `i128`.
fn checked_reserved(taken: i128, placed: i64, lot_size: i64, price: i128) -> (r: Option<i128>)
    requires
        -0x1_0000_0000_0000_0000 <= price <= 0xffff_ffff_ffff_ffff,
    ensures
        ({
            let lots = placed * lot_size;
            let ok = fits_i128(int_bits(lots)) && fits_i128(int_bits(lots * price)) && fits_i128(
                taken + int_bits(lots * price),
            );
            match r {
                Some(b) => ok && b == taken + int_bits(lots * price),
                None => !ok,
            }
        }),
{
    let p = placed as i128;
    let l = lot_size as i128;
    assert(-0x4000_0000_0000_0000_0000_0000_0000_0000 <= p * l <= 0x4000_0000_0000_0000_0000_0000_0000_0000)
        by (nonlinear_arith)
        requires
            -0x8000_0000_0000_0000 <= p <= 0x7fff_ffff_ffff_ffff,
            -0x8000_0000_0000_0000 <= l <= 0x7fff_ffff_ffff_ffff,
    ;
    let lots: i128 = p * l;
    if checked_int_bits(lots).is_none() {
        return None;
    }
    let total = match lots.checked_mul(price) {
        None => {
            proof {
                lemma_int_bits_grows(lots * price);
            }
            return None;
        },
        Some(total) => total,
    };
    match checked_int_bits(total) {
        None => None,
        Some(bits) => taken.checked_add(bits),
    }
}

/// The funds a bid needs, where their computation stays within the number types.
fn checked_bid_reserved(order: &Order, fill: &OrderFill, market: &Market) -> (r: Option<i128>)
    ensures
        match r {
            Some(b) => bid_reserved_in_range(*order, *fill, *market) && b == bid_reserved(
                *order,
                *fill,
                *market,
            ),
            None => !bid_reserved_in_range(*order, *fill, *market),
        },
{
    let taken = fill.total_quote_taken_native.bits;
    match order.params {
        OrderParams::Market | OrderParams::ImmediateOrCancel { .. } => Some(taken),
        OrderParams::Fixed { order_type, .. } => {
            if order_type == PostOrderType::PostOnly && fill.order_id.is_none() {
                Some(0)
            } else {
                match fill.order_id {
                    None => None,
                    Some(order_id) => {
                        let price_lots: u64 = (order_id >> 64u32) as u64;
                        checked_reserved(taken, fill.placed_quantity, market.quote_lot_size, price_lots as i128)
                    },
                }
            }
        },
        OrderParams::OraclePegged { order_type, peg_limit, .. } => {
            if order_type == PostOrderType::PostOnly && fill.order_id.is_none() {
                Some(0)
            } else {
                checked_reserved(taken, fill.placed_quantity, market.quote_lot_size, peg_limit as i128)
            }
        },
    }
}

/// The funds an ask needs, where their computation stays within the number types.
fn checked_ask_reserved(order: &Order, fill: &OrderFill, market: &Market) -> (r: Option<i128>)
    ensures
        match r {
            Some(b) => ask_reserved_in_range(*order, *fill, *market) && b == ask_reserved(
                *order,
                *fill,
                *market,
            ),
            None => !ask_reserved_in_range(*order, *fill, *market),
        },
{
    let taken = fill.total_base_taken_native.bits;
    match order.params {
        OrderParams::Market | OrderParams::ImmediateOrCancel { .. } => Some(taken),
        OrderParams::Fixed { order_type, .. } | OrderParams::OraclePegged { order_type, .. } => {
            if order_type == PostOrderType::PostOnly && fill.order_id.is_none() {
                Some(0)
            } else {
                proof {
                    assert(fill.placed_quantity * market.base_lot_size * 1 == fill.placed_quantity
                        * market.base_lot_size);
                }
                checked_reserved(taken, fill.placed_quantity, market.base_lot_size, 1)
            }
        },
    }
}

/// Whether the computation of placing an order stays within the number types
/// (where it does not, placing the order overflows).
pub fn order_fits(order: &Order, fill: &OrderFill, market: &Market, position: &Position) -> (r: bool)
    ensures
        r == place_in_range(*order, *fill, *market, *position),
{
    match order.side {
        Side::Bid => {
            let reserved = match checked_bid_reserved(order, fill, market) {
                None => return false,
                Some(b) => b,
            };
            let free = position.quote_free_native.bits;
            let lock = if reserved <= free {
                reserved
            } else {
                free
            };
            if free.checked_sub(lock).is_none() {
                return false;
            }
            let deposit = match reserved.checked_sub(lock) {
                None => return false,
                Some(d) => d,
            };
            let fee_rate = match market.taker_fee.bits.checked_sub(market.maker_fee.bits) {
                None => return false,
                Some(f) => f,
            };
            let fee = match fill.total_quote_taken_native.checked_mul(Fixed::from_bits(fee_rate)) {
                None => return false,
                Some(f) => f,
            };
            let net = match deposit.checked_sub(fee.bits) {
                None => return false,
                Some(n) => n,
            };
            let increase = match floor_to_u64(net) {
                None => return false,
                Some(n) => n,
            };
            if market.quote_deposit_total.checked_add(increase).is_none() {
                return false;
            }
            if deposit > 0 {
                ceil_to_u64(deposit).is_some()
            } else {
                true
            }
        },
        Side::Ask => {
            let reserved = match checked_ask_reserved(order, fill, market) {
                None => return false,
                Some(b) => b,
            };
            let free = position.base_free_native.bits;
            let lock = if reserved <= free {
                reserved
            } else {
                free
            };
            if free.checked_sub(lock).is_none() {
                return false;
            }
            let deposit = match reserved.checked_sub(lock) {
                None => return false,
                Some(d) => d,
            };
            let increase = match floor_to_u64(deposit) {
                None => return false,
                Some(n) => n,
            };
            if market.base_deposit_total.checked_add(increase).is_none() {
                return false;
            }
            if deposit > 0 {
                ceil_to_u64(deposit).is_some()
            } else {
                true
            }
        },
    }
}

/// Places an order whose matching against the book produced `fill`: checks
/// the order's limits and the signer's authority, locks what the trader's
/// free balance covers of the funds the order needs, adds the rest to the
/// market's deposit total and returns the transfer that brings it in.
pub fn place_order(
    order: &Order,
    owner_authorized: bool,
    fill: &OrderFill,
    market: &mut Market,
    position: &mut Position,
) -> (res: Result<PlacedOrder, OpenBookError>)
    requires
        order_accepted(*order, owner_authorized) ==> place_in_range(
            *order,
            *fill,
            *old(market),
            *old(position),
        ),
    ensures
        order_accepted(*order, owner_authorized) ==> {
            &&& res == Ok::<PlacedOrder, OpenBookError>(
                placed_order(*order, *fill, *old(market), *old(position)),
            )
            &&& *final(market) == market_after_order(*order, *fill, *old(market), *old(position))
            &&& *final(position) == position_after_order(
                *order,
                *fill,
                *old(market),
                *old(position),
            )
        },
        !order_accepted(*order, owner_authorized) ==> {
            &&& res == Err::<PlacedOrder, OpenBookError>(order_error(*order, owner_authorized))
            &&& *final(market) == *old(market)
            &&& *final(position) == *old(position)
        },
{
    if order.max_base_lots < 0 {
        return Err(OpenBookError::RequireGteViolated);
    }
    if order.max_quote_lots_including_fees < 0 {
        return Err(OpenBookError::RequireGteViolated);
    }
    if !owner_authorized {
        return Err(OpenBookError::SomeError);
    }
    let order_id = fill.order_id;
    match order.side {
        Side::Bid => {
            let free = position.quote_free_native;
            let reserved = bid_reserved_native(order, fill, market, position);
            let lock = reserved.min(free);
            position.quote_free_native = free.sub(lock);
            let deposit = reserved.sub(lock);
            let fee = fill.total_quote_taken_native.mul(market.taker_fee.sub(market.maker_fee));
            let increase = deposit.sub(fee).to_num_u64();
            market.quote_deposit_total = market.quote_deposit_total + increase;
            proof {
                lemma_int_bits_floor(ceil_units(deposit.bits as int));
            }
            let transfer = if deposit.is_positive() {
                Some(TokenDeposit { vault: Vault::Quote, amount: deposit.ceil().to_num_u64() })
            } else {
                None
            };
            Ok(PlacedOrder { order_id, deposit: transfer })
        },
        Side::Ask => {
            let free = position.base_free_native;
            let reserved = ask_reserved_native(order, fill, market, position);
            let lock = reserved.min(free);
            position.base_free_native = free.sub(lock);
            let deposit = reserved.sub(lock);
            let increase = deposit.to_num_u64();
            market.base_deposit_total = market.base_deposit_total + increase;
            proof {
                lemma_int_bits_floor(ceil_units(deposit.bits as int));
            }
            let transfer = if deposit.is_positive() {
                Some(TokenDeposit { vault: Vault::Base, amount: deposit.ceil().to_num_u64() })
            } else {
                None
            };
            Ok(PlacedOrder { order_id, deposit: transfer })
        },
    }
}

/// Placing an order never overdraws the trader's free balance and never asks
/// for a negative deposit; what the order needs is exactly what it took from
/// the free balance plus the deposit, and the other token's free balance is
/// untouched.
pub proof fn law_order_funds_balance(order: Order, fill: OrderFill, market: Market, position: Position)
    requires
        place_in_range(order, fill, market, position),
    ensures
        order_deposit(order, fill, market, position) >= 0,
        ({
            let after = position_after_order(order, fill, market, position);
            let deposit = order_deposit(order, fill, market, position);
            match order.side {
                Side::Bid => {
                    &&& after.quote_free_native.bits >= 0
                    &&& position.quote_free_native.bits + deposit == after.quote_free_native.bits
                        + bid_reserved(order, fill, market)
                    &&& after.base_free_native == position.base_free_native
                },
                Side::Ask => {
                    &&& after.base_free_native.bits >= 0
                    &&& position.base_free_native.bits + deposit == after.base_free_native.bits
                        + ask_reserved(order, fill, market)
                    &&& after.quote_free_native == position.quote_free_native
                },
            }
        }),
{
}

/// The transfer that brings a deposit in covers it, by less than one token.
pub proof fn law_transfer_covers_deposit(order: Order, fill: OrderFill, market: Market, position: Position)
    requires
        place_in_range(order, fill, market, position),
    ensures
        ({
            let deposit = order_deposit(order, fill, market, position);
            match placed_order(order, fill, market, position).deposit {
                Some(t) => {
                    &&& deposit > 0
                    &&& int_bits(t.amount as int) >= deposit
                    &&& int_bits(t.amount as int) < deposit + (FRAC_ONE as int)
                    &&& t.vault == (if order.side == Side::Bid { Vault::Quote } else { Vault::Base })
                },
                None => deposit <= 0,
            }
        }),
{
    let deposit = order_deposit(order, fill, market, position);
    lemma_ceil_units_bounds(deposit);
}

/// The tokens an order brings into the vault are at least what it adds to the
/// market's deposit total (for a bid, when the fee difference on the quote it
/// took is not negative).
pub proof fn law_vault_receives_what_is_booked(order: Order, fill: OrderFill, market: Market, position: Position)
    requires
        place_in_range(order, fill, market, position),
        order.side == Side::Bid ==> bid_fee_bits(fill, market) >= 0,
    ensures
        ({
            let received = amount_of(placed_order(order, fill, market, position).deposit);
            match order.side {
                Side::Bid => market_after_order(order, fill, market, position).quote_deposit_total
                    - market.quote_deposit_total <= received,
                Side::Ask => market_after_order(order, fill, market, position).base_deposit_total
                    - market.base_deposit_total <= received,
            }
        }),
{
    let deposit = order_deposit(order, fill, market, position);
    lemma_ceil_units_bounds(deposit);
    lemma_floor_units_bounds(deposit);
    lemma_floor_units_bounds(deposit - bid_fee_bits(fill, market));
}

/// The amount of a transfer, or zero where there is none.
pub open spec fn amount_of(t: Option<TokenDeposit>) -> int {
    match t {
        Some(d) => d.amount as int,
        None => 0,
    }
}

/// A limit or pegged order that may only rest on the book.
pub open spec fn is_post_only(params: OrderParams) -> bool {
    match params {
        OrderParams::Fixed { order_type, .. } => order_type == PostOrderType::PostOnly,
        OrderParams::OraclePegged { order_type, .. } => order_type == PostOrderType::PostOnly,
        _ => false,
    }
}

/// A post-only order that would have crossed the book is not posted: it
/// reserves nothing, and with a non-negative free balance it locks nothing,
/// needs no deposit and leaves the position as it was.
pub proof fn law_post_only_not_posted_reserves_nothing(
    order: Order,
    fill: OrderFill,
    market: Market,
    position: Position,
)
    requires
        fill.order_id is None,
        is_post_only(order.params),
        position.quote_free_native.bits >= 0,
        position.base_free_native.bits >= 0,
    ensures
        bid_reserved(order, fill, market) == 0,
        ask_reserved(order, fill, market) == 0,
        order_deposit(order, fill, market, position) == 0,
        placed_order(order, fill, market, position).deposit is None,
        position_after_order(order, fill, market, position) == position,
{
}

/// How many base lots a reduce-only order may trade: none in the direction
/// of the position; otherwise the position's size, or, when the whole market
/// is reduce-only, what is left of it once the trader's open orders on the
/// same side execute.
pub open spec fn reduce_only_allowed_lots(pp: Position, side: Side, market_reduce_only: bool) -> int {
    let eff = pp.base_position_lots as int;
    if (side == Side::Bid && eff >= 0) || (side == Side::Ask && eff <= 0) {
        0
    } else if market_reduce_only {
        if side == Side::Bid {
            let after_bids = eff + pp.bids_base_lots;
            if after_bids < 0 {
                -after_bids
            } else {
                0
            }
        } else {
            let after_asks = eff - pp.asks_base_lots;
            if after_asks > 0 {
                after_asks
            } else {
                0
            }
        }
    } else if eff < 0 {
        -eff
    } else {
        eff
    }
}

pub open spec fn reduce_only_limit(pp: Position, order: Order, market_reduce_only: bool) -> int {
    let allowed = reduce_only_allowed_lots(pp, order.side, market_reduce_only);
    if allowed <= order.max_base_lots {
        allowed
    } else {
        order.max_base_lots as int
    }
}

/// The arithmetic of the reduce-only limit stays within `i64`.
pub open spec fn reduce_only_in_range(pp: Position, order: Order, market_reduce_only: bool) -> bool {
    let eff = pp.base_position_lots as int;
    &&& (order.side == Side::Bid && eff < 0 && market_reduce_only) ==> i64::MIN < eff
        + pp.bids_base_lots <= i64::MAX
    &&& (order.side == Side::Ask && eff > 0 && market_reduce_only) ==> i64::MIN <= eff
        - pp.asks_base_lots <= i64::MAX
    &&& (order.side == Side::Bid && eff < 0 && !market_reduce_only) ==> eff > i64::MIN
}

/// The most base lots a reduce-only order may trade: the allowed lots, capped
/// by the order's own limit.
pub fn reduce_only_max_base_lots(pp: &Position, order: &Order, market_reduce_only: bool) -> (r: i64)
    requires
        reduce_only_in_range(*pp, *order, market_reduce_only),
    ensures
        r == reduce_only_limit(*pp, *order, market_reduce_only),
{
    let effective_pos = pp.effective_base_position_lots();
    let allowed_base_lots: i64 = if (order.side == Side::Bid && effective_pos >= 0) || (order.side
        == Side::Ask && effective_pos <= 0) {
        0
    } else if market_reduce_only {
        if order.side == Side::Bid {
            let after_bids: i64 = effective_pos + pp.bids_base_lots;
            if after_bids < 0 {
                -after_bids
            } else {
                0
            }
        } else {
            let after_asks: i64 = effective_pos - pp.asks_base_lots;
            if after_asks > 0 {
                after_asks
            } else {
                0
            }
        }
    } else if effective_pos < 0 {
        -effective_pos
    } else {
        effective_pos
    };
    if allowed_base_lots <= order.max_base_lots {
        allowed_base_lots
    } else {
        order.max_base_lots
    }
}

/// A reduce-only order never trades more than the order allows, never moves
/// the position past zero, and never trades in the direction of the position
/// (open order counts being non-negative).
pub proof fn law_reduce_only_never_grows_position(pp: Position, order: Order, market_reduce_only: bool)
    requires
        pp.bids_base_lots >= 0,
        pp.asks_base_lots >= 0,
    ensures
        reduce_only_limit(pp, order, market_reduce_only) <= order.max_base_lots,
        reduce_only_limit(pp, order, market_reduce_only) > 0 ==> (if order.side == Side::Bid {
            pp.base_position_lots + reduce_only_limit(pp, order, market_reduce_only) <= 0
        } else {
            pp.base_position_lots - reduce_only_limit(pp, order, market_reduce_only) >= 0
        }),
{
}

/// When the whole market is reduce-only the limit is never looser than when
/// only the order is (open order counts being non-negative).
pub proof fn law_market_reduce_only_is_stricter(pp: Position, order: Order)
    requires
        pp.bids_base_lots >= 0,
        pp.asks_base_lots >= 0,
    ensures
        reduce_only_limit(pp, order, true) <= reduce_only_limit(pp, order, false),
{
}

/// The lots a reduce-only order may trade are never negative; they are none
/// in the direction of the position, the size of the position when only the
/// order is reduce-only, and in a reduce-only market what is left of the
/// position, floored at zero, once the open orders on the same side execute.
/// The order's own limit then caps them, and only caps them.
pub proof fn law_reduce_only_lots(pp: Position, order: Order, market_reduce_only: bool)
    ensures
        ({
            let eff = pp.base_position_lots as int;
            let allowed = reduce_only_allowed_lots(pp, order.side, market_reduce_only);
            let limit = reduce_only_limit(pp, order, market_reduce_only);
            &&& allowed >= 0
            &&& limit <= allowed
            &&& limit <= order.max_base_lots
            &&& (limit == allowed || limit == order.max_base_lots)
            &&& order.max_base_lots >= 0 ==> limit >= 0
            &&& (order.side == Side::Bid && eff >= 0) ==> allowed == 0
            &&& (order.side == Side::Ask && eff <= 0) ==> allowed == 0
            &&& (order.side == Side::Bid && eff < 0 && market_reduce_only) ==> allowed == (if eff
                + pp.bids_base_lots >= 0 {
                0
            } else {
                -(eff + pp.bids_base_lots)
            })
            &&& (order.side == Side::Ask && eff > 0 && market_reduce_only) ==> allowed == (if eff
                - pp.asks_base_lots <= 0 {
                0
            } else {
                eff - pp.asks_base_lots
            })
            &&& (order.side == Side::Bid && eff < 0 && !market_reduce_only) ==> allowed == -eff
            &&& (order.side == Side::Ask && eff > 0 && !market_reduce_only) ==> allowed == eff
        }),
{
}

/// A market or immediate-or-cancel bid needs exactly the quote it took; a
/// resting limit bid needs the quote it took plus its resting lots times the
/// quote lot size times the price in its order id, and a resting pegged bid
/// the same at its peg limit.
pub proof fn law_bid_needs_taken_plus_resting(order: Order, fill: OrderFill, market: Market)
    ensures
        ({
            let taken = fill.total_quote_taken_native.bits as int;
            let lots = fill.placed_quantity * market.quote_lot_size;
            let reserved = bid_reserved(order, fill, market);
            match order.params {
                OrderParams::Market => reserved == taken,
                OrderParams::ImmediateOrCancel { .. } => reserved == taken,
                OrderParams::Fixed { order_type, .. } => !(order_type == PostOrderType::PostOnly
                    && fill.order_id is None) ==> reserved == taken + lots * ((fill.order_id.unwrap()
                    >> 64u32) as u64) * (FRAC_ONE as int),
                OrderParams::OraclePegged { order_type, peg_limit, .. } => !(order_type
                    == PostOrderType::PostOnly && fill.order_id is None) ==> reserved == taken + lots
                    * peg_limit * (FRAC_ONE as int),
            }
        }),
{
}

/// What a resting limit or pegged bid needs is what a market bid with the
/// same fill needs plus the quote of its resting lots, so it is at least what
/// it took whenever the resting part is not negative.
pub proof fn law_resting_bid_covers_taken(order: Order, fill: OrderFill, market: Market)
    requires
        match order.params {
            OrderParams::Fixed { order_type, .. } => !posted_nothing(order_type, fill),
            OrderParams::OraclePegged { order_type, .. } => !posted_nothing(order_type, fill),
            _ => false,
        },
    ensures
        ({
            let as_market = Order { params: OrderParams::Market, ..order };
            let resting = fill.placed_quantity * market.quote_lot_size * bid_price_lots(order.params, fill);
            &&& bid_reserved(order, fill, market) == bid_reserved(as_market, fill, market) + resting
                * (FRAC_ONE as int)
            &&& resting >= 0 ==> bid_reserved(order, fill, market)
                >= fill.total_quote_taken_native.bits
        }),
{
}

/// Whatever its kind, an ask that is not an unposted post-only order needs
/// the base it took plus its resting lots times the base lot size; a market
/// or immediate-or-cancel ask needs what it took.
pub proof fn law_ask_needs_taken_plus_resting(order: Order, fill: OrderFill, market: Market)
    ensures
        ({
            let taken = fill.total_base_taken_native.bits as int;
            let resting = fill.placed_quantity * market.base_lot_size * (FRAC_ONE as int);
            let reserved = ask_reserved(order, fill, market);
            match order.params {
                OrderParams::Market => reserved == taken,
                OrderParams::ImmediateOrCancel { .. } => reserved == taken,
                OrderParams::Fixed { order_type, .. } => !(order_type == PostOrderType::PostOnly
                    && fill.order_id is None) ==> reserved == taken + resting,
                OrderParams::OraclePegged { order_type, .. } => !(order_type
                    == PostOrderType::PostOnly && fill.order_id is None) ==> reserved == taken
                    + resting,
            }
        }),
{
}

/// A resting ask needs the same base whether it is a limit or a pegged order.
pub proof fn law_ask_kind_does_not_change_need(
    order: Order,
    fill: OrderFill,
    market: Market,
    price_lots: i64,
    price_offset_lots: i64,
    peg_limit: i64,
    order_type: PostOrderType,
)
    ensures
        ask_reserved(
            Order { params: OrderParams::Fixed { price_lots, order_type }, ..order },
            fill,
            market,
        ) == ask_reserved(
            Order { params: OrderParams::OraclePegged { price_offset_lots, order_type, peg_limit }, ..order },
            fill,
            market,
        ),
{
}

/// With no free balance on the side it needs, an accepted order brings in all
/// that it needs: the deposit is the need, the transfer is the need rounded up
/// into that side's vault, and the free balance stays empty.
pub proof fn law_order_without_free_funds_deposits_need(
    order: Order,
    fill: OrderFill,
    market: Market,
    position: Position,
)
    requires
        place_in_range(order, fill, market, position),
        order.side == Side::Bid ==> position.quote_free_native.bits == 0,
        order.side == Side::Ask ==> position.base_free_native.bits == 0,
    ensures
        ({
            let need = match order.side {
                Side::Bid => bid_reserved(order, fill, market),
                Side::Ask => ask_reserved(order, fill, market),
            };
            let vault = if order.side == Side::Bid {
                Vault::Quote
            } else {
                Vault::Base
            };
            need > 0 ==> {
                &&& order_deposit(order, fill, market, position) == need
                &&& placed_order(order, fill, market, position).deposit == Some(
                    TokenDeposit { vault, amount: ceil_units(need) as u64 },
                )
            }
        }),
{
}

} // verus!
