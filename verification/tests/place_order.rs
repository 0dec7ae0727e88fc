use openbook_v2::fixed_point::{Fixed, FRAC_ONE};
use openbook_v2::place_order::{
    place_order, reduce_only_max_base_lots, OrderFill, PlacedOrder, TokenDeposit, Vault,
};
use openbook_v2::state::{Market, OpenBookError, Order, OrderParams, Position, PostOrderType, Side};

#[test]
fn test_reduce_only() {
    let test_cases = vec![
        ("null", true, 0, (0, 0), (Side::Bid, 0), 0),
        ("ok bid", true, -5, (0, 0), (Side::Bid, 1), 1),
        ("limited bid", true, -5, (0, 0), (Side::Bid, 10), 5),
        ("limited bid2", true, -5, (1, 10), (Side::Bid, 10), 4),
        ("limited bid3", false, -5, (1, 10), (Side::Bid, 10), 5),
        ("no bid", true, 5, (0, 0), (Side::Bid, 1), 0),
        ("ok ask", true, 5, (0, 0), (Side::Ask, 1), 1),
        ("limited ask", true, 5, (0, 0), (Side::Ask, 10), 5),
        ("limited ask2", true, 5, (10, 1), (Side::Ask, 10), 4),
        ("limited ask3", false, 5, (10, 1), (Side::Ask, 10), 5),
        ("no ask", true, -5, (0, 0), (Side::Ask, 1), 0),
    ];

    for (
        name,
        market_reduce_only,
        base_lots,
        (open_bids, open_asks),
        (side, amount),
        expected,
    ) in test_cases
    {
        println!("test: {name}");

        let pp = Position {
            base_position_lots: base_lots,
            bids_base_lots: open_bids,
            asks_base_lots: open_asks,
            ..Position::default()
        };
        let order = Order {
            side,
            max_base_lots: amount,
            max_quote_lots_including_fees: 0,
            client_order_id: 0,
            reduce_only: true,
            time_in_force: 0,
            params: OrderParams::Market,
        };

        let result = reduce_only_max_base_lots(&pp, &order, market_reduce_only);
        assert_eq!(result, expected);
    }
}

fn units(n: i64) -> Fixed {
    Fixed::from_bits(n as i128 * FRAC_ONE)
}

fn test_market() -> Market {
    Market {
        admin: [1u8; 32],
        event_queue: [2u8; 32],
        market_index: 7,
        bump: 255,
        base_lot_size: 100,
        quote_lot_size: 10,
        maker_fee: Fixed::zero(),
        taker_fee: Fixed::zero(),
        base_deposit_total: 1_000,
        quote_deposit_total: 2_000,
        quote_fees_accrued: 0,
        referrer_rebates_accrued: 0,
    }
}

fn order(side: Side, params: OrderParams) -> Order {
    Order {
        side,
        max_base_lots: 10,
        max_quote_lots_including_fees: 1_000,
        client_order_id: 1,
        reduce_only: false,
        time_in_force: 0,
        params,
    }
}

fn order_id(price_lots: u64, seq: u64) -> u128 {
    ((price_lots as u128) << 64) | seq as u128
}

#[test]
fn bid_limit_locks_free_quote_and_deposits_rest() {
    let mut market = test_market();
    let mut position = Position { quote_free_native: units(1_000), ..Position::default() };
    let fill = OrderFill {
        order_id: Some(order_id(100, 3)),
        total_base_taken_native: Fixed::zero(),
        total_quote_taken_native: Fixed::zero(),
        placed_quantity: 3,
    };
    let o = order(Side::Bid, OrderParams::Fixed { price_lots: 100, order_type: PostOrderType::Limit });
    let res = place_order(&o, true, &fill, &mut market, &mut position);
    // 3 lots * 10 quote per lot * price 100 = 3000 quote needed; 1000 free.
    assert_eq!(
        res,
        Ok(PlacedOrder {
            order_id: fill.order_id,
            deposit: Some(TokenDeposit { vault: Vault::Quote, amount: 2_000 })
        })
    );
    assert_eq!(position.quote_free_native, Fixed::zero());
    assert_eq!(market.quote_deposit_total, 4_000);
    assert_eq!(market.base_deposit_total, 1_000);
}

#[test]
fn bid_covered_by_free_quote_needs_no_deposit() {
    let mut market = test_market();
    let mut position = Position { quote_free_native: units(5_000), ..Position::default() };
    let fill = OrderFill {
        order_id: Some(order_id(100, 3)),
        total_base_taken_native: Fixed::zero(),
        total_quote_taken_native: Fixed::zero(),
        placed_quantity: 3,
    };
    let o = order(Side::Bid, OrderParams::Fixed { price_lots: 100, order_type: PostOrderType::Limit });
    let res = place_order(&o, true, &fill, &mut market, &mut position).unwrap();
    assert_eq!(res.deposit, None);
    assert_eq!(position.quote_free_native, units(2_000));
    assert_eq!(market.quote_deposit_total, 2_000);
}

#[test]
fn bid_fee_difference_is_kept_out_of_deposit_total() {
    let mut market = test_market();
    // taker 1/128, maker 1/256 of the quote taken.
    market.taker_fee = Fixed::from_bits(FRAC_ONE / 128);
    market.maker_fee = Fixed::from_bits(FRAC_ONE / 256);
    let mut position = Position::default();
    let fill = OrderFill {
        order_id: None,
        total_base_taken_native: units(400),
        total_quote_taken_native: units(4_096),
        placed_quantity: 0,
    };
    let o = order(Side::Bid, OrderParams::ImmediateOrCancel { price_lots: 100 });
    let res = place_order(&o, true, &fill, &mut market, &mut position).unwrap();
    assert_eq!(res.deposit, Some(TokenDeposit { vault: Vault::Quote, amount: 4_096 }));
    // 4096 - 4096 / 256 = 4080
    assert_eq!(market.quote_deposit_total, 2_000 + 4_080);
}

#[test]
fn bid_deposit_is_rounded_up() {
    let mut market = test_market();
    let mut position = Position::default();
    let half = FRAC_ONE / 2;
    let fill = OrderFill {
        order_id: None,
        total_base_taken_native: Fixed::zero(),
        total_quote_taken_native: Fixed::from_bits(10 * FRAC_ONE + half),
        placed_quantity: 0,
    };
    let o = order(Side::Bid, OrderParams::Market);
    let res = place_order(&o, true, &fill, &mut market, &mut position).unwrap();
    assert_eq!(res.deposit, Some(TokenDeposit { vault: Vault::Quote, amount: 11 }));
    assert_eq!(market.quote_deposit_total, 2_010);
}

#[test]
fn pegged_bid_uses_peg_limit() {
    let mut market = test_market();
    let mut position = Position::default();
    let fill = OrderFill {
        order_id: Some(order_id(90, 1)),
        total_base_taken_native: Fixed::zero(),
        total_quote_taken_native: Fixed::zero(),
        placed_quantity: 2,
    };
    let o = order(
        Side::Bid,
        OrderParams::OraclePegged { price_offset_lots: -5, order_type: PostOrderType::Limit, peg_limit: 120 },
    );
    let res = place_order(&o, true, &fill, &mut market, &mut position).unwrap();
    // 2 lots * 10 * 120
    assert_eq!(res.deposit, Some(TokenDeposit { vault: Vault::Quote, amount: 2_400 }));
}

#[test]
fn ask_locks_free_base() {
    let mut market = test_market();
    let mut position = Position { base_free_native: units(250), ..Position::default() };
    let fill = OrderFill {
        order_id: Some(order_id(100, 9)),
        total_base_taken_native: units(100),
        total_quote_taken_native: Fixed::zero(),
        placed_quantity: 2,
    };
    let o = order(Side::Ask, OrderParams::Fixed { price_lots: 100, order_type: PostOrderType::Limit });
    let res = place_order(&o, true, &fill, &mut market, &mut position).unwrap();
    // 100 taken + 2 lots * 100 = 300 base needed; 250 free.
    assert_eq!(res.deposit, Some(TokenDeposit { vault: Vault::Base, amount: 50 }));
    assert_eq!(position.base_free_native, Fixed::zero());
    assert_eq!(market.base_deposit_total, 1_050);
    assert_eq!(market.quote_deposit_total, 2_000);
}

#[test]
fn post_only_not_posted_moves_nothing() {
    let mut market = test_market();
    let mut position = Position { quote_free_native: units(10), base_free_native: units(10), ..Position::default() };
    let fill = OrderFill {
        order_id: None,
        total_base_taken_native: Fixed::zero(),
        total_quote_taken_native: Fixed::zero(),
        placed_quantity: 0,
    };
    for side in [Side::Bid, Side::Ask] {
        let o = order(side, OrderParams::Fixed { price_lots: 100, order_type: PostOrderType::PostOnly });
        let res = place_order(&o, true, &fill, &mut market, &mut position);
        assert_eq!(res, Ok(PlacedOrder { order_id: None, deposit: None }));
    }
    assert_eq!(position.quote_free_native, units(10));
    assert_eq!(position.base_free_native, units(10));
    assert_eq!(market.quote_deposit_total, 2_000);
    assert_eq!(market.base_deposit_total, 1_000);
}

#[test]
fn negative_limits_and_foreign_signer_are_refused() {
    let mut market = test_market();
    let mut position = Position { quote_free_native: units(10), ..Position::default() };
    let fill = OrderFill {
        order_id: None,
        total_base_taken_native: Fixed::zero(),
        total_quote_taken_native: units(5),
        placed_quantity: 0,
    };
    let mut o = order(Side::Bid, OrderParams::Market);
    o.max_base_lots = -1;
    assert_eq!(
        place_order(&o, true, &fill, &mut market, &mut position),
        Err(OpenBookError::RequireGteViolated)
    );
    o.max_base_lots = 1;
    o.max_quote_lots_including_fees = -1;
    assert_eq!(
        place_order(&o, true, &fill, &mut market, &mut position),
        Err(OpenBookError::RequireGteViolated)
    );
    o.max_quote_lots_including_fees = 1;
    assert_eq!(
        place_order(&o, false, &fill, &mut market, &mut position),
        Err(OpenBookError::SomeError)
    );
    assert_eq!(position.quote_free_native, units(10));
    assert_eq!(market.quote_deposit_total, 2_000);
}

#[test]
fn reduce_only_never_exceeds_order_limit() {
    let pp = Position { base_position_lots: -50, bids_base_lots: 0, ..Position::default() };
    let mut o = order(Side::Bid, OrderParams::Market);
    o.max_base_lots = 7;
    assert_eq!(reduce_only_max_base_lots(&pp, &o, false), 7);
    assert_eq!(reduce_only_max_base_lots(&pp, &o, true), 7);
    o.max_base_lots = 70;
    assert_eq!(reduce_only_max_base_lots(&pp, &o, false), 50);
}

#[test]
fn market_reduce_only_is_stricter_example() {
    let pp = Position { base_position_lots: 8, asks_base_lots: 3, ..Position::default() };
    let o = order(Side::Ask, OrderParams::Market);
    assert_eq!(reduce_only_max_base_lots(&pp, &o, true), 5);
    assert_eq!(reduce_only_max_base_lots(&pp, &o, false), 8);
}

#[test]
fn order_fits_accepts_ordinary_orders() {
    let market = test_market();
    let position = Position { quote_free_native: units(1_000), ..Position::default() };
    let fill = OrderFill {
        order_id: Some(order_id(100, 3)),
        total_base_taken_native: Fixed::zero(),
        total_quote_taken_native: Fixed::zero(),
        placed_quantity: 3,
    };
    let o = order(Side::Bid, OrderParams::Fixed { price_lots: 100, order_type: PostOrderType::Limit });
    assert!(openbook_v2::place_order::order_fits(&o, &fill, &market, &position));
    let a = order(Side::Ask, OrderParams::Fixed { price_lots: 100, order_type: PostOrderType::Limit });
    assert!(openbook_v2::place_order::order_fits(&a, &fill, &market, &position));
}

#[test]
fn order_fits_rejects_limit_bid_without_order_id() {
    let market = test_market();
    let position = Position::default();
    let fill = OrderFill {
        order_id: None,
        total_base_taken_native: Fixed::zero(),
        total_quote_taken_native: Fixed::zero(),
        placed_quantity: 0,
    };
    let o = order(Side::Bid, OrderParams::Fixed { price_lots: 100, order_type: PostOrderType::Limit });
    assert!(!openbook_v2::place_order::order_fits(&o, &fill, &market, &position));
    let p = order(Side::Bid, OrderParams::Fixed { price_lots: 100, order_type: PostOrderType::PostOnly });
    assert!(openbook_v2::place_order::order_fits(&p, &fill, &market, &position));
}

#[test]
fn order_fits_rejects_overflowing_sizes() {
    let mut market = test_market();
    market.quote_lot_size = i64::MAX;
    let position = Position::default();
    let fill = OrderFill {
        order_id: Some(order_id(u64::MAX, 1)),
        total_base_taken_native: Fixed::zero(),
        total_quote_taken_native: Fixed::zero(),
        placed_quantity: i64::MAX,
    };
    let o = order(Side::Bid, OrderParams::Fixed { price_lots: 100, order_type: PostOrderType::Limit });
    assert!(!openbook_v2::place_order::order_fits(&o, &fill, &market, &position));
    // A deposit total that would pass u64::MAX.
    let mut market = test_market();
    market.base_deposit_total = u64::MAX;
    let fill = OrderFill {
        order_id: None,
        total_base_taken_native: units(1),
        total_quote_taken_native: Fixed::zero(),
        placed_quantity: 0,
    };
    let a = order(Side::Ask, OrderParams::Market);
    assert!(!openbook_v2::place_order::order_fits(&a, &fill, &market, &position));
}
