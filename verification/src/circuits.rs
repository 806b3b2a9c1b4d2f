//! The three confidential computations of a perpetuals position: opening it from
//! an order, checking it for liquidation against a price feed, and closing it
//! into a profit-and-loss figure.

use vstd::prelude::*;

verus! {

/// Smallest leverage a position may carry.
pub const MIN_LEVERAGE: u8 = 1;

/// Largest leverage a position may carry.
pub const MAX_LEVERAGE: u8 = 100;

/// Basis points in one whole (100%).
pub const BPS_DENOMINATOR: u64 = 10_000;

/// Units of `size` per unit of notional.
pub const SIZE_SCALE: u64 = 1_000_000;

/// An open position as the circuits see it after decryption.
#[derive(Clone, Copy, Debug, PartialEq, Eq, Structural)]
pub struct PositionInput {
    pub size: u64,
    pub entry_price: u64,
    /// `0` for a long position, `1` for a short one.
    pub is_short: u8,
    pub leverage: u8,
}

/// A price-feed observation.
#[derive(Clone, Copy, Debug, PartialEq, Eq, Structural)]
pub struct PriceFeedInput {
    pub mark_price: u64,
    pub funding_rate_bps: u64,
    pub timestamp: u64,
}

/// An order that asks for a position to be opened.
#[derive(Clone, Copy, Debug, PartialEq, Eq, Structural)]
pub struct OrderInput {
    pub size: u64,
    pub limit_price: u64,
    /// `0` for a long order, `1` for a short one.
    pub is_short: u8,
    pub leverage: u8,
}

/// The net profit or loss of a closed position: its magnitude and its sign.
#[derive(Clone, Copy, Debug, PartialEq, Eq, Structural)]
pub struct PnlOutput {
    pub pnl_usd_cents: u64,
    /// `1` when the close nets a profit or breaks even after funding, `0` for a net loss.
    pub is_profit: u8,
}

/// The leverage that an order's requested leverage is clamped to.
pub open spec fn clamp_leverage(requested: u8) -> u8 {
    if requested < MIN_LEVERAGE {
        MIN_LEVERAGE
    } else if requested > MAX_LEVERAGE {
        MAX_LEVERAGE
    } else {
        requested
    }
}

/// The position that an order opens.
pub open spec fn opened_position(order: OrderInput) -> PositionInput {
    PositionInput {
        size: order.size,
        entry_price: order.limit_price,
        is_short: order.is_short,
        leverage: clamp_leverage(order.leverage),
    }
}

/// Opens a position from an order: size, price and direction are carried over and
/// the leverage is clamped into `[MIN_LEVERAGE, MAX_LEVERAGE]`.
pub fn open_position(order: OrderInput) -> (position: PositionInput)
    ensures
        position == opened_position(order),
        position.size == order.size,
        position.entry_price == order.limit_price,
        position.is_short == order.is_short,
        order.leverage == 0 ==> position.leverage == 1,
        1 <= order.leverage <= 100 ==> position.leverage == order.leverage,
        order.leverage > 100 ==> position.leverage == 100,
{
    let safe_leverage = if order.leverage < MIN_LEVERAGE {
        MIN_LEVERAGE
    } else if order.leverage > MAX_LEVERAGE {
        MAX_LEVERAGE
    } else {
        order.leverage
    };
    PositionInput {
        size: order.size,
        entry_price: order.limit_price,
        is_short: order.is_short,
        leverage: safe_leverage,
    }
}


/// `a - b`, or zero where `b` exceeds `a`.
pub open spec fn saturating_diff(a: int, b: int) -> int {
    if a >= b {
        a - b
    } else {
        0
    }
}

/// Maintenance margin, in basis points, of a position with leverage `leverage`.
pub open spec fn maintenance_bps(leverage: u8) -> int {
    (BPS_DENOMINATOR as int) / (leverage as int)
}

/// Distance, in basis points, between the entry price and the liquidation price:
/// the initial margin `BPS_DENOMINATOR / leverage` less the maintenance margin.
pub open spec fn liquidation_distance_bps(leverage: u8) -> int {
    saturating_diff((BPS_DENOMINATOR as int) / (leverage as int), maintenance_bps(leverage))
}

/// Price at or below which a long position is liquidated.
pub open spec fn liquidation_price_long(position: PositionInput) -> int {
    saturating_diff(
        position.entry_price as int,
        position.entry_price * liquidation_distance_bps(position.leverage) / (BPS_DENOMINATOR as int),
    )
}

/// Price at or above which a short position is liquidated.
pub open spec fn liquidation_price_short(position: PositionInput) -> int {
    position.entry_price + position.entry_price * liquidation_distance_bps(position.leverage) / (
    BPS_DENOMINATOR as int)
}

/// Whether a position must be liquidated at the feed's mark price: a long one when the
/// mark price has fallen to its long liquidation price, a short one when it has risen
/// to its short liquidation price. A direction other than `0` or `1` is never liquidated.
pub open spec fn should_liquidate(position: PositionInput, feed: PriceFeedInput) -> bool {
    ||| position.is_short == 0 && feed.mark_price <= liquidation_price_long(position)
    ||| position.is_short == 1 && feed.mark_price >= liquidation_price_short(position)
}

/// Checks a position against a price feed; the answer is `1` (liquidate) or `0` (safe).
/// A leverage of zero would divide by zero, so it is ruled out.
pub fn liquidation_check(position: PositionInput, price_feed: PriceFeedInput) -> (signal: u8)
    requires
        position.leverage >= 1,
    ensures
        signal == (if should_liquidate(position, price_feed) { 1u8 } else { 0u8 }),
{
    let lev = position.leverage as u64;
    let maint_bps = BPS_DENOMINATOR / lev;
    let liq_dist_bps = (BPS_DENOMINATOR / lev).saturating_sub(maint_bps);
    assert(liq_dist_bps == 0);
    let liq_price_long = position.entry_price.saturating_sub(
        position.entry_price * liq_dist_bps / BPS_DENOMINATOR,
    );
    let liq_price_short = position.entry_price + (position.entry_price * liq_dist_bps
        / BPS_DENOMINATOR);
    let liq_long: u8 = (position.is_short == 0) as u8 * (price_feed.mark_price
        <= liq_price_long) as u8;
    let liq_short: u8 = (position.is_short == 1) as u8 * (price_feed.mark_price
        >= liq_price_short) as u8;
    let flags: u8 = liq_long | liq_short;
    assert(liq_long <= 1 && liq_short <= 1 ==> ((flags > 0) == (liq_long == 1 || liq_short == 1)))
        by (bit_vector)
        requires
            flags == liq_long | liq_short,
    ;
    (flags > 0) as u8
}


/// Whole notional units of a position's size.
pub open spec fn scaled_size(position: PositionInput) -> int {
    (position.size / SIZE_SCALE) as int
}

/// Notional value of the position at its entry price.
pub open spec fn entry_notional(position: PositionInput) -> int {
    scaled_size(position) * position.entry_price
}

/// Notional value of the position at the feed's mark price.
pub open spec fn exit_notional(position: PositionInput, feed: PriceFeedInput) -> int {
    scaled_size(position) * feed.mark_price
}

/// A long position whose exit notional is at least its entry notional.
pub open spec fn long_in_profit(position: PositionInput, feed: PriceFeedInput) -> bool {
    position.is_short == 0 && exit_notional(position, feed) >= entry_notional(position)
}

/// A short position whose entry notional is at least its exit notional.
pub open spec fn short_in_profit(position: PositionInput, feed: PriceFeedInput) -> bool {
    position.is_short == 1 && entry_notional(position) >= exit_notional(position, feed)
}

/// Whether the mark price moved in the position's favour (an unchanged notional counts
/// as in its favour): a long whose notional did not fall, a short whose notional did
/// not rise.
pub open spec fn moved_in_favour(position: PositionInput, feed: PriceFeedInput) -> bool {
    long_in_profit(position, feed) || short_in_profit(position, feed)
}

/// Unleveraged size of the notional move: the distance between entry and exit notional
/// for a long or short position; for any other direction, how far the exit notional
/// lies above the entry notional.
pub open spec fn raw_pnl(position: PositionInput, feed: PriceFeedInput) -> int {
    let entry = entry_notional(position);
    let exit = exit_notional(position, feed);
    if position.is_short == 0 || position.is_short == 1 {
        if exit >= entry {
            exit - entry
        } else {
            entry - exit
        }
    } else {
        saturating_diff(exit, entry)
    }
}

/// Size of the notional move times the position's leverage.
pub open spec fn leveraged_move(position: PositionInput, feed: PriceFeedInput) -> int {
    raw_pnl(position, feed) * position.leverage
}

/// Funding paid over the position's life: its size times the funding rate, in
/// notional units.
pub open spec fn funding_cost(position: PositionInput, feed: PriceFeedInput) -> int {
    position.size * feed.funding_rate_bps / (BPS_DENOMINATOR as int) / (SIZE_SCALE as int)
}

/// Signed profit (positive) or loss (negative) of closing the position: the leveraged
/// move, gained when the price moved in the position's favour and lost otherwise, less
/// the funding cost.
pub open spec fn net_pnl(position: PositionInput, feed: PriceFeedInput) -> int {
    let gross = if moved_in_favour(position, feed) {
        leveraged_move(position, feed)
    } else {
        -leveraged_move(position, feed)
    };
    gross - funding_cost(position, feed)
}

/// The magnitude of a signed amount.
pub open spec fn magnitude(x: int) -> int {
    if x >= 0 {
        x
    } else {
        -x
    }
}

/// What closing a position at the feed's prices reports: the magnitude of the net
/// profit or loss, and whether it is a profit (zero counts as profit).
pub open spec fn closed_pnl(position: PositionInput, feed: PriceFeedInput) -> PnlOutput {
    PnlOutput {
        pnl_usd_cents: magnitude(net_pnl(position, feed)) as u64,
        is_profit: if net_pnl(position, feed) >= 0 { 1u8 } else { 0u8 },
    }
}

/// The signed amount that a close report stands for.
pub open spec fn reported_amount(pnl: PnlOutput) -> int {
    if pnl.is_profit == 1 {
        pnl.pnl_usd_cents as int
    } else {
        -(pnl.pnl_usd_cents as int)
    }
}

/// The inputs on which closing computes without overflowing a `u64`.
pub open spec fn close_fits(position: PositionInput, feed: PriceFeedInput) -> bool {
    &&& entry_notional(position) <= u64::MAX
    &&& exit_notional(position, feed) <= u64::MAX
    &&& leveraged_move(position, feed) <= u64::MAX
    &&& position.size * feed.funding_rate_bps <= u64::MAX
    &&& !moved_in_favour(position, feed) ==> leveraged_move(position, feed) + funding_cost(
        position,
        feed,
    ) <= u64::MAX
}

/// Closes a position at the feed's mark price and reports its leveraged profit or
/// loss including the funding cost. Inputs whose intermediate values overflow a `u64`
/// are ruled out.
pub fn close_position(position: PositionInput, price_feed: PriceFeedInput) -> (pnl: PnlOutput)
    requires
        close_fits(position, price_feed),
    ensures
        pnl == closed_pnl(position, price_feed),
{
    let scaled = position.size / SIZE_SCALE;
    let entry_notional = scaled * position.entry_price;
    let exit_notional = scaled * price_feed.mark_price;
    let long_profit: u8 = (position.is_short == 0) as u8 & (exit_notional
        >= entry_notional) as u8;
    let short_profit: u8 = (position.is_short == 1) as u8 & (entry_notional
        >= exit_notional) as u8;
    let either: u8 = long_profit | short_profit;
    proof {
        let a = position.is_short == 0;
        let b = exit_notional >= entry_notional;
        let c = position.is_short == 1;
        let d = entry_notional >= exit_notional;
        assert(long_profit == (if a && b { 1u8 } else { 0u8 })) by (bit_vector)
            requires
                long_profit == (a as u8) & (b as u8),
        ;
        assert(short_profit == (if c && d { 1u8 } else { 0u8 })) by (bit_vector)
            requires
                short_profit == (c as u8) & (d as u8),
        ;
        assert(long_profit <= 1 && short_profit <= 1 ==> ((either > 0) == (long_profit == 1
            || short_profit == 1))) by (bit_vector)
            requires
                either == long_profit | short_profit,
        ;
    }
    let raw_pnl = if long_profit > 0 {
        exit_notional.saturating_sub(entry_notional)
    } else if short_profit > 0 {
        entry_notional.saturating_sub(exit_notional)
    } else if position.is_short == 0 {
        entry_notional.saturating_sub(exit_notional)
    } else {
        exit_notional.saturating_sub(entry_notional)
    };
    let leveraged_pnl = raw_pnl * (position.leverage as u64);
    let funding_cost = position.size * price_feed.funding_rate_bps / BPS_DENOMINATOR
        / SIZE_SCALE;
    if either > 0 {
        if leveraged_pnl >= funding_cost {
            PnlOutput { pnl_usd_cents: leveraged_pnl - funding_cost, is_profit: 1 }
        } else {
            PnlOutput { pnl_usd_cents: funding_cost - leveraged_pnl, is_profit: 0 }
        }
    } else {
        let loss = leveraged_pnl + funding_cost;
        PnlOutput { pnl_usd_cents: loss, is_profit: if loss == 0 { 1 } else { 0 } }
    }
}

/// Whether `close_position` can run on these inputs without overflowing: the test a
/// caller outside verified code makes before calling it.
pub fn close_position_fits(position: PositionInput, price_feed: PriceFeedInput) -> (fits: bool)
    ensures
        fits == close_fits(position, price_feed),
{
    let scaled = position.size / SIZE_SCALE;
    let entry = match scaled.checked_mul(position.entry_price) {
        Some(v) => v,
        None => return false,
    };
    let exit = match scaled.checked_mul(price_feed.mark_price) {
        Some(v) => v,
        None => return false,
    };
    let in_favour = (position.is_short == 0 && exit >= entry) || (position.is_short == 1
        && entry >= exit);
    let raw = if position.is_short == 0 || position.is_short == 1 {
        if exit >= entry {
            exit - entry
        } else {
            entry - exit
        }
    } else {
        exit.saturating_sub(entry)
    };
    let leveraged = match raw.checked_mul(position.leverage as u64) {
        Some(v) => v,
        None => return false,
    };
    let funded = match position.size.checked_mul(price_feed.funding_rate_bps) {
        Some(v) => v,
        None => return false,
    };
    let funding = funded / BPS_DENOMINATOR / SIZE_SCALE;
    in_favour || leveraged.checked_add(funding).is_some()
}

} // verus!
