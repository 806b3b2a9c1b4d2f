use private_perps::circuits::{
    close_position, close_position_fits, liquidation_check, open_position, OrderInput, PnlOutput, PositionInput,
    PriceFeedInput,
};

fn order(leverage: u8) -> OrderInput {
    OrderInput { size: 3_000_000, limit_price: 250, is_short: 1, leverage }
}

fn feed(mark_price: u64, funding_rate_bps: u64) -> PriceFeedInput {
    PriceFeedInput { mark_price, funding_rate_bps, timestamp: 1_700_000_000 }
}

fn position(size: u64, entry_price: u64, is_short: u8, leverage: u8) -> PositionInput {
    PositionInput { size, entry_price, is_short, leverage }
}

#[test]
fn open_position_carries_order_fields() {
    let p = open_position(order(10));
    assert_eq!(p, PositionInput { size: 3_000_000, entry_price: 250, is_short: 1, leverage: 10 });
}

#[test]
fn open_position_raises_zero_leverage_to_one() {
    assert_eq!(open_position(order(0)).leverage, 1);
}

#[test]
fn open_position_caps_leverage_at_one_hundred() {
    assert_eq!(open_position(order(101)).leverage, 100);
    assert_eq!(open_position(order(255)).leverage, 100);
}

#[test]
fn open_position_keeps_boundary_leverage() {
    assert_eq!(open_position(order(1)).leverage, 1);
    assert_eq!(open_position(order(100)).leverage, 100);
}

#[test]
fn open_position_is_idempotent() {
    let p = open_position(order(0));
    let again = open_position(OrderInput {
        size: p.size,
        limit_price: p.entry_price,
        is_short: p.is_short,
        leverage: p.leverage,
    });
    assert_eq!(p, again);
}

#[test]
fn long_is_liquidated_at_or_below_entry_price() {
    let p = position(1_000_000, 100, 0, 10);
    assert_eq!(liquidation_check(p, feed(100, 0)), 1);
    assert_eq!(liquidation_check(p, feed(99, 0)), 1);
    assert_eq!(liquidation_check(p, feed(101, 0)), 0);
}

#[test]
fn short_is_liquidated_at_or_above_entry_price() {
    let p = position(1_000_000, 100, 1, 10);
    assert_eq!(liquidation_check(p, feed(100, 0)), 1);
    assert_eq!(liquidation_check(p, feed(150, 0)), 1);
    assert_eq!(liquidation_check(p, feed(99, 0)), 0);
}

#[test]
fn unknown_direction_is_never_liquidated() {
    let p = position(1_000_000, 100, 2, 10);
    assert_eq!(liquidation_check(p, feed(0, 0)), 0);
    assert_eq!(liquidation_check(p, feed(u64::MAX, 0)), 0);
}

#[test]
fn liquidation_price_does_not_depend_on_leverage() {
    for lev in [1u8, 2, 3, 7, 50, 100, 255] {
        let long = position(1_000_000, 1_000, 0, lev);
        let short = position(1_000_000, 1_000, 1, lev);
        assert_eq!(liquidation_check(long, feed(1_000, 0)), 1);
        assert_eq!(liquidation_check(long, feed(1_001, 0)), 0);
        assert_eq!(liquidation_check(short, feed(1_000, 0)), 1);
        assert_eq!(liquidation_check(short, feed(999, 0)), 0);
    }
}

#[test]
fn liquidation_check_ignores_funding_and_timestamp() {
    let p = position(5_000_000, 300, 0, 4);
    let a = PriceFeedInput { mark_price: 301, funding_rate_bps: 0, timestamp: 0 };
    let b = PriceFeedInput { mark_price: 301, funding_rate_bps: 9_999, timestamp: 42 };
    assert_eq!(liquidation_check(p, a), liquidation_check(p, b));
}

#[test]
fn close_long_in_profit() {
    // entry notional 2 * 100 = 200, exit notional 2 * 110 = 220
    let r = close_position(position(2_000_000, 100, 0, 5), feed(110, 0));
    assert_eq!(r, PnlOutput { pnl_usd_cents: 100, is_profit: 1 });
}

#[test]
fn close_long_at_a_loss() {
    let r = close_position(position(2_000_000, 100, 0, 5), feed(90, 0));
    assert_eq!(r, PnlOutput { pnl_usd_cents: 100, is_profit: 0 });
}

#[test]
fn close_short_in_profit() {
    let r = close_position(position(3_000_000, 100, 1, 2), feed(80, 0));
    assert_eq!(r, PnlOutput { pnl_usd_cents: 120, is_profit: 1 });
}

#[test]
fn close_short_at_a_loss() {
    let r = close_position(position(3_000_000, 100, 1, 2), feed(120, 0));
    assert_eq!(r, PnlOutput { pnl_usd_cents: 120, is_profit: 0 });
}

#[test]
fn close_flat_counts_as_profit_for_both_directions() {
    let long = close_position(position(4_000_000, 50, 0, 3), feed(50, 0));
    let short = close_position(position(4_000_000, 50, 1, 3), feed(50, 0));
    assert_eq!(long, PnlOutput { pnl_usd_cents: 0, is_profit: 1 });
    assert_eq!(short, PnlOutput { pnl_usd_cents: 0, is_profit: 1 });
}

#[test]
fn close_subtracts_funding() {
    // funding: 20_000_000 * 500 / 10_000 / 1_000_000 = 1
    let r = close_position(position(20_000_000, 10, 0, 1), feed(11, 500));
    assert_eq!(r, PnlOutput { pnl_usd_cents: 19, is_profit: 1 });
}

#[test]
fn close_gain_below_funding_is_a_net_loss() {
    // move 1 * 1 = 1 in favour, funding 1_000_000 * 20_000 / 10_000 / 1_000_000 = 2
    let r = close_position(position(1_000_000, 10, 0, 1), feed(11, 20_000));
    assert_eq!(r, PnlOutput { pnl_usd_cents: 1, is_profit: 0 });
}

#[test]
fn close_gain_equal_to_funding_breaks_even() {
    // move 2 * 1 = 2 in favour, funding 2
    let r = close_position(position(1_000_000, 10, 0, 2), feed(11, 20_000));
    assert_eq!(r, PnlOutput { pnl_usd_cents: 0, is_profit: 1 });
}

#[test]
fn close_funding_deepens_a_loss() {
    // leveraged loss (200 - 180) * 2 = 40, funding 2_000_000 * 50_000 / 10_000 / 1_000_000 = 10
    let r = close_position(position(2_000_000, 100, 0, 2), feed(90, 50_000));
    assert_eq!(r, PnlOutput { pnl_usd_cents: 50, is_profit: 0 });
}

#[test]
fn close_short_pays_funding_too() {
    // short gain (300 - 240) * 2 = 120, funding 3_000_000 * 100_000 / 10_000 / 1_000_000 = 30
    let gain = close_position(position(3_000_000, 100, 1, 2), feed(80, 100_000));
    assert_eq!(gain, PnlOutput { pnl_usd_cents: 90, is_profit: 1 });
    // short loss (360 - 300) * 2 = 120, plus funding 30
    let loss = close_position(position(3_000_000, 100, 1, 2), feed(120, 100_000));
    assert_eq!(loss, PnlOutput { pnl_usd_cents: 150, is_profit: 0 });
}

#[test]
fn close_flat_with_funding_is_a_loss_of_the_funding() {
    let r = close_position(position(4_000_000, 50, 1, 3), feed(50, 10_000));
    // funding 4_000_000 * 10_000 / 10_000 / 1_000_000 = 4
    assert_eq!(r, PnlOutput { pnl_usd_cents: 4, is_profit: 0 });
}

#[test]
fn close_small_size_has_no_notional() {
    let r = close_position(position(999_999, 100, 0, 10), feed(1_000, 0));
    assert_eq!(r, PnlOutput { pnl_usd_cents: 0, is_profit: 1 });
}

#[test]
fn close_unknown_direction_loses_only_upward_moves() {
    let up = close_position(position(1_000_000, 100, 7, 2), feed(130, 0));
    let down = close_position(position(1_000_000, 100, 7, 2), feed(70, 0));
    assert_eq!(up, PnlOutput { pnl_usd_cents: 60, is_profit: 0 });
    assert_eq!(down, PnlOutput { pnl_usd_cents: 0, is_profit: 1 });
}

fn signed(r: PnlOutput) -> i128 {
    if r.is_profit == 1 {
        r.pnl_usd_cents as i128
    } else {
        -(r.pnl_usd_cents as i128)
    }
}

#[test]
fn close_long_and_short_mirror_each_other() {
    // funding 6_000_000 * 20_000 / 10_000 / 1_000_000 = 12
    for mark in [50u64, 99, 100, 101, 170] {
        let long = close_position(position(6_000_000, 100, 0, 7), feed(mark, 20_000));
        let short = close_position(position(6_000_000, 100, 1, 7), feed(mark, 20_000));
        assert_eq!(signed(long) + signed(short), -24);
        let no_funding_long = close_position(position(6_000_000, 100, 0, 7), feed(mark, 0));
        let no_funding_short = close_position(position(6_000_000, 100, 1, 7), feed(mark, 0));
        assert_eq!(no_funding_long.pnl_usd_cents, no_funding_short.pnl_usd_cents);
        if mark == 100 {
            assert_eq!((no_funding_long.is_profit, no_funding_short.is_profit), (1, 1));
        } else {
            assert_ne!(no_funding_long.is_profit, no_funding_short.is_profit);
        }
    }
}

#[test]
fn higher_funding_never_raises_net_pnl() {
    for mark in [80u64, 120] {
        let p = position(50_000_000, 100, 0, 3);
        let mut previous = i128::MAX;
        for rate in [0u64, 100, 1_000, 10_000, 100_000, 1_000_000] {
            let r = signed(close_position(p, feed(mark, rate)));
            assert!(r <= previous);
            previous = r;
        }
    }
}

#[test]
fn liquidated_long_is_not_strictly_profitable() {
    let p = position(5_000_000, 200, 0, 10);
    for mark in [0u64, 150, 199, 200] {
        assert_eq!(liquidation_check(p, feed(mark, 0)), 1);
        let r = close_position(p, feed(mark, 0));
        assert!(r.is_profit == 0 || r.pnl_usd_cents == 0);
    }
}

#[test]
fn close_position_fits_detects_overflow() {
    assert!(close_position_fits(position(2_000_000, 100, 0, 5), feed(110, 0)));
    // entry notional overflows
    assert!(!close_position_fits(position(u64::MAX, u64::MAX, 0, 1), feed(1, 0)));
    // exit notional overflows
    assert!(!close_position_fits(position(2_000_000, 1, 0, 1), feed(u64::MAX, 0)));
    // leveraged pnl overflows: raw = 2 * (u64::MAX / 2) - 0
    assert!(!close_position_fits(position(2_000_000, 0, 0, 2), feed(u64::MAX / 2, 0)));
    // the same move without leverage fits
    assert!(close_position_fits(position(2_000_000, 0, 0, 1), feed(u64::MAX / 2, 0)));
    // funding product overflows
    assert!(!close_position_fits(position(u64::MAX, 0, 0, 1), feed(0, 2)));
    // a loss plus its funding overflows
    assert!(!close_position_fits(position(2_000_000, u64::MAX / 2, 0, 1), feed(0, 50_000)));
    // the same move in a short's favour fits
    assert!(close_position_fits(position(2_000_000, u64::MAX / 2, 1, 1), feed(0, 50_000)));
    // an unknown direction only counts upward moves
    assert!(close_position_fits(position(2_000_000, u64::MAX / 2, 5, 255), feed(0, 0)));
}
