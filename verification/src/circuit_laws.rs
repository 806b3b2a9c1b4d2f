//! Properties of the circuits that hold for every input.

use vstd::prelude::*;
use vstd::arithmetic::div_mod::lemma_div_is_ordered;
use vstd::arithmetic::mul::lemma_mul_inequality;

use crate::circuits::{
    close_fits, closed_pnl, entry_notional, exit_notional, funding_cost, leveraged_move,
    liquidation_distance_bps, liquidation_price_long, liquidation_price_short, magnitude,
    moved_in_favour, net_pnl, opened_position, raw_pnl, reported_amount, scaled_size,
    should_liquidate, OrderInput, PositionInput, PriceFeedInput, MAX_LEVERAGE, MIN_LEVERAGE,
    BPS_DENOMINATOR, SIZE_SCALE,
};

verus! {

/// Every opened position carries a leverage within `[MIN_LEVERAGE, MAX_LEVERAGE]`,
/// and a leverage already inside that range is kept as requested.
pub proof fn lemma_opened_leverage_in_bounds(order: OrderInput)
    ensures
        MIN_LEVERAGE <= opened_position(order).leverage <= MAX_LEVERAGE,
        MIN_LEVERAGE <= order.leverage <= MAX_LEVERAGE ==> opened_position(order).leverage
            == order.leverage,
{
}

/// Opening is idempotent: re-opening an order made from an opened position gives the
/// same position back.
pub proof fn lemma_reopen_is_identity(order: OrderInput)
    ensures
        ({
            let p = opened_position(order);
            opened_position(
                OrderInput {
                    size: p.size,
                    limit_price: p.entry_price,
                    is_short: p.is_short,
                    leverage: p.leverage,
                },
            ) == p
        }),
{
}

/// The maintenance margin equals the initial margin, so the liquidation distance is
/// zero and both liquidation prices coincide with the entry price, at every leverage.
pub proof fn lemma_liquidation_price_is_entry_price(position: PositionInput)
    requires
        position.leverage >= 1,
    ensures
        liquidation_distance_bps(position.leverage) == 0,
        liquidation_price_long(position) == position.entry_price,
        liquidation_price_short(position) == position.entry_price,
{
}

/// A long position is liquidated exactly when the mark price is at or below its entry
/// price, a short one exactly when the mark price is at or above it; no other direction
/// is ever liquidated.
pub proof fn lemma_liquidation_against_entry_price(position: PositionInput, feed: PriceFeedInput)
    requires
        position.leverage >= 1,
    ensures
        should_liquidate(position, feed) <==> (position.is_short == 0 && feed.mark_price
            <= position.entry_price) || (position.is_short == 1 && feed.mark_price
            >= position.entry_price),
{
    lemma_liquidation_price_is_entry_price(position);
}

/// Every opened position can be checked for liquidation: its leverage is never zero.
pub proof fn lemma_opened_position_is_checkable(order: OrderInput)
    ensures
        opened_position(order).leverage >= 1,
{
}

/// A position that the liquidation check flags is never strictly in profit at the same
/// mark price.
pub proof fn lemma_liquidated_position_not_strictly_profitable(
    position: PositionInput,
    feed: PriceFeedInput,
)
    requires
        position.leverage >= 1,
        should_liquidate(position, feed),
    ensures
        !(position.is_short == 0 && exit_notional(position, feed) > entry_notional(position)),
        !(position.is_short == 1 && entry_notional(position) > exit_notional(position, feed)),
{
    lemma_liquidation_against_entry_price(position, feed);
    let q = scaled_size(position);
    if position.is_short == 0 {
        lemma_mul_inequality(feed.mark_price as int, position.entry_price as int, q);
        assert(feed.mark_price * q <= position.entry_price * q);
        assert(exit_notional(position, feed) == feed.mark_price * q) by (nonlinear_arith)
            requires
                exit_notional(position, feed) == q * feed.mark_price,
        ;
        assert(entry_notional(position) == position.entry_price * q) by (nonlinear_arith)
            requires
                entry_notional(position) == q * position.entry_price,
        ;
    } else if position.is_short == 1 {
        lemma_mul_inequality(position.entry_price as int, feed.mark_price as int, q);
        assert(exit_notional(position, feed) == feed.mark_price * q) by (nonlinear_arith)
            requires
                exit_notional(position, feed) == q * feed.mark_price,
        ;
        assert(entry_notional(position) == position.entry_price * q) by (nonlinear_arith)
            requires
                entry_notional(position) == q * position.entry_price,
        ;
    }
}

/// With a whole notional unit or more, the price moves in a long or short position's
/// favour exactly when the mark price has not moved against it.
pub proof fn lemma_favour_follows_price(position: PositionInput, feed: PriceFeedInput)
    requires
        position.is_short == 0 || position.is_short == 1,
        position.size >= SIZE_SCALE,
    ensures
        moved_in_favour(position, feed) <==> (position.is_short == 0 && feed.mark_price
            >= position.entry_price) || (position.is_short == 1 && feed.mark_price
            <= position.entry_price),
{
    let q = scaled_size(position);
    let m = feed.mark_price as int;
    let e = position.entry_price as int;
    assert(q >= 1);
    assert(exit_notional(position, feed) == q * m);
    assert(entry_notional(position) == q * e);
    assert((q * m >= q * e) <==> (m >= e)) by (nonlinear_arith)
        requires
            q >= 1,
    ;
    assert((q * e >= q * m) <==> (e >= m)) by (nonlinear_arith)
        requires
            q >= 1,
    ;
}

/// A close report reads back as the net profit or loss: its magnitude, signed by its
/// profit bit.
pub proof fn lemma_report_is_net_pnl(position: PositionInput, feed: PriceFeedInput)
    requires
        close_fits(position, feed),
    ensures
        reported_amount(closed_pnl(position, feed)) == net_pnl(position, feed),
{
    lemma_net_pnl_bounds(position, feed);
}

/// The net profit never exceeds the leveraged move, and the net loss never exceeds the
/// leveraged move plus the funding cost.
pub proof fn lemma_net_pnl_bounds(position: PositionInput, feed: PriceFeedInput)
    ensures
        -(leveraged_move(position, feed) + funding_cost(position, feed)) <= net_pnl(position, feed)
            <= leveraged_move(position, feed),
        0 <= funding_cost(position, feed),
        0 <= leveraged_move(position, feed),
{
    assert(raw_pnl(position, feed) >= 0);
    assert(raw_pnl(position, feed) * position.leverage >= 0) by (nonlinear_arith)
        requires
            raw_pnl(position, feed) >= 0,
    ;
    assert(position.size * feed.funding_rate_bps >= 0) by (nonlinear_arith);
}

/// Long and short positions that differ only in direction move by the same leveraged
/// amount; when the notional moved, exactly one of them gains it, when it did not, both
/// count as in favour; and their net results add up to twice the funding cost lost.
pub proof fn lemma_direction_symmetry(
    long: PositionInput,
    short: PositionInput,
    feed: PriceFeedInput,
)
    requires
        long.is_short == 0,
        short.is_short == 1,
        long.size == short.size,
        long.entry_price == short.entry_price,
        long.leverage == short.leverage,
    ensures
        leveraged_move(long, feed) == leveraged_move(short, feed),
        entry_notional(long) != exit_notional(long, feed) ==> moved_in_favour(long, feed)
            != moved_in_favour(short, feed),
        entry_notional(long) == exit_notional(long, feed) ==> moved_in_favour(long, feed)
            && moved_in_favour(short, feed),
        net_pnl(long, feed) + net_pnl(short, feed) == -2 * funding_cost(long, feed),
{
    assert(raw_pnl(long, feed) == raw_pnl(short, feed));
    if entry_notional(long) == exit_notional(long, feed) {
        assert(raw_pnl(long, feed) == 0);
        assert(leveraged_move(long, feed) == 0);
    }
}

/// Without funding, the close nets exactly the leveraged move: gained when the price
/// moved in the position's favour, lost otherwise.
pub proof fn lemma_no_funding_full_leverage(position: PositionInput, feed: PriceFeedInput)
    requires
        feed.funding_rate_bps == 0,
    ensures
        magnitude(net_pnl(position, feed)) == leveraged_move(position, feed),
        net_pnl(position, feed) >= 0 <==> moved_in_favour(position, feed) || leveraged_move(
            position,
            feed,
        ) == 0,
{
    lemma_net_pnl_bounds(position, feed);
    assert(position.size * feed.funding_rate_bps == 0);
}

/// A higher funding rate never raises the net result, all else equal: funding is a cost
/// whether the position gains or loses.
pub proof fn lemma_funding_lowers_pnl(
    position: PositionInput,
    low: PriceFeedInput,
    high: PriceFeedInput,
)
    requires
        low.mark_price == high.mark_price,
        low.funding_rate_bps <= high.funding_rate_bps,
    ensures
        net_pnl(position, high) <= net_pnl(position, low),
        moved_in_favour(position, high) == moved_in_favour(position, low),
{
    let s = position.size as int;
    lemma_mul_inequality(low.funding_rate_bps as int, high.funding_rate_bps as int, s);
    assert(s * low.funding_rate_bps <= s * high.funding_rate_bps) by (nonlinear_arith)
        requires
            low.funding_rate_bps * s <= high.funding_rate_bps * s,
    ;
    lemma_div_is_ordered(
        s * low.funding_rate_bps,
        s * high.funding_rate_bps,
        BPS_DENOMINATOR as int,
    );
    lemma_div_is_ordered(
        s * low.funding_rate_bps / (BPS_DENOMINATOR as int),
        s * high.funding_rate_bps / (BPS_DENOMINATOR as int),
        SIZE_SCALE as int,
    );
    assert(raw_pnl(position, high) == raw_pnl(position, low));
}

/// Opening carries the order's size, limit price and direction over unchanged, keeps a
/// leverage between 1 and 100 as requested, raises a zero leverage to 1 and caps any
/// higher leverage at 100.
pub proof fn lemma_open_carries_order(order: OrderInput)
    ensures
        opened_position(order).size == order.size,
        opened_position(order).entry_price == order.limit_price,
        opened_position(order).is_short == order.is_short,
        order.leverage == 0 ==> opened_position(order).leverage == 1,
        1 <= order.leverage <= 100 ==> opened_position(order).leverage == order.leverage,
        order.leverage > 100 ==> opened_position(order).leverage == 100,
{
}

/// A position's notional values are its whole millions of size units times the entry
/// price and times the mark price, for every size.
pub proof fn lemma_notional_is_whole_units_times_price(
    position: PositionInput,
    feed: PriceFeedInput,
)
    ensures
        entry_notional(position) == (position.size / 1_000_000) as int * position.entry_price,
        exit_notional(position, feed) == (position.size / 1_000_000) as int * feed.mark_price,
{
}

/// For a long or short position the unleveraged move is the distance between exit and
/// entry notional, and the leveraged move is that distance times the position's own
/// leverage.
pub proof fn lemma_move_is_notional_distance(position: PositionInput, feed: PriceFeedInput)
    requires
        position.is_short == 0 || position.is_short == 1,
    ensures
        ({
            let d = (position.size / 1_000_000) as int * feed.mark_price - (position.size
                / 1_000_000) as int * position.entry_price;
            raw_pnl(position, feed) == if d >= 0 {
                d
            } else {
                -d
            }
        }),
        leveraged_move(position, feed) == raw_pnl(position, feed) * position.leverage,
{
}

/// The funding a close pays: size times the funding rate, over 10_000 basis points and
/// 1_000_000 size units per notional unit.
pub open spec fn funding_of(position: PositionInput, feed: PriceFeedInput) -> int {
    position.size * feed.funding_rate_bps / 10_000 / 1_000_000
}

/// Closing a long position reports `(exit notional - entry notional) * leverage -
/// funding`: its magnitude, and a profit bit that is set exactly when that amount is
/// not negative.
pub proof fn lemma_close_long(position: PositionInput, feed: PriceFeedInput)
    requires
        position.is_short == 0,
        close_fits(position, feed),
    ensures
        ({
            let q = (position.size / 1_000_000) as int;
            let signed = (q * feed.mark_price - q * position.entry_price) * position.leverage
                - funding_of(position, feed);
            &&& closed_pnl(position, feed).pnl_usd_cents == if signed >= 0 {
                signed
            } else {
                -signed
            }
            &&& closed_pnl(position, feed).is_profit == if signed >= 0 { 1u8 } else { 0u8 }
        }),
{
    lemma_net_pnl_bounds(position, feed);
    let q = (position.size / 1_000_000) as int;
    let ex = q * feed.mark_price;
    let en = q * position.entry_price;
    let l = position.leverage as int;
    assert(exit_notional(position, feed) == ex);
    assert(entry_notional(position) == en);
    assert(-((en - ex) * l) == (ex - en) * l) by (nonlinear_arith);
}

/// Closing a short position reports `(entry notional - exit notional) * leverage -
/// funding`: its magnitude, and a profit bit that is set exactly when that amount is
/// not negative.
pub proof fn lemma_close_short(position: PositionInput, feed: PriceFeedInput)
    requires
        position.is_short == 1,
        close_fits(position, feed),
    ensures
        ({
            let q = (position.size / 1_000_000) as int;
            let signed = (q * position.entry_price - q * feed.mark_price) * position.leverage
                - funding_of(position, feed);
            &&& closed_pnl(position, feed).pnl_usd_cents == if signed >= 0 {
                signed
            } else {
                -signed
            }
            &&& closed_pnl(position, feed).is_profit == if signed >= 0 { 1u8 } else { 0u8 }
        }),
{
    lemma_net_pnl_bounds(position, feed);
    let q = (position.size / 1_000_000) as int;
    let ex = q * feed.mark_price;
    let en = q * position.entry_price;
    let l = position.leverage as int;
    assert(exit_notional(position, feed) == ex);
    assert(entry_notional(position) == en);
    assert(-((ex - en) * l) == (en - ex) * l) by (nonlinear_arith);
}

/// Without funding, a position's reported profit or loss scales with its leverage: two
/// positions that differ only in leverage report magnitudes in the ratio of their
/// leverages, and the same profit bit when both leverages are positive.
pub proof fn lemma_pnl_scales_with_leverage(
    a: PositionInput,
    b: PositionInput,
    feed: PriceFeedInput,
)
    requires
        a.size == b.size,
        a.entry_price == b.entry_price,
        a.is_short == b.is_short,
        a.is_short == 0 || a.is_short == 1,
        feed.funding_rate_bps == 0,
        close_fits(a, feed),
        close_fits(b, feed),
    ensures
        closed_pnl(a, feed).pnl_usd_cents * b.leverage == closed_pnl(b, feed).pnl_usd_cents
            * a.leverage,
        a.leverage > 0 && b.leverage > 0 ==> closed_pnl(a, feed).is_profit == closed_pnl(
            b,
            feed,
        ).is_profit,
{
    let q = (a.size / 1_000_000) as int;
    let d = if a.is_short == 0 {
        q * feed.mark_price - q * a.entry_price
    } else {
        q * a.entry_price - q * feed.mark_price
    };
    assert(a.size * feed.funding_rate_bps == 0);
    assert(funding_of(a, feed) == 0);
    assert(funding_of(b, feed) == 0);
    if a.is_short == 0 {
        lemma_close_long(a, feed);
        lemma_close_long(b, feed);
    } else {
        lemma_close_short(a, feed);
        lemma_close_short(b, feed);
    }
    let la = a.leverage as int;
    let lb = b.leverage as int;
    assert(magnitude(d * la) * lb == magnitude(d * lb) * la) by (nonlinear_arith)
        requires
            la >= 0,
            lb >= 0,
            magnitude(d * la) == if d * la >= 0 { d * la } else { -(d * la) },
            magnitude(d * lb) == if d * lb >= 0 { d * lb } else { -(d * lb) },
    ;
    assert(la > 0 && lb > 0 ==> ((d * la >= 0) == (d * lb >= 0))) by (nonlinear_arith);
}

/// Raising the mark price by one notional step raises a long's reported amount, and
/// lowers a short's, by exactly its whole size units times its leverage.
pub proof fn lemma_pnl_tracks_mark_price(
    position: PositionInput,
    low: PriceFeedInput,
    high: PriceFeedInput,
)
    requires
        position.is_short == 0 || position.is_short == 1,
        high.mark_price == low.mark_price + 1,
        high.funding_rate_bps == low.funding_rate_bps,
        close_fits(position, low),
        close_fits(position, high),
    ensures
        ({
            let step = (position.size / 1_000_000) as int * position.leverage;
            let ra = reported_amount(closed_pnl(position, low));
            let rb = reported_amount(closed_pnl(position, high));
            if position.is_short == 0 {
                rb == ra + step
            } else {
                rb == ra - step
            }
        }),
{
    let q = (position.size / 1_000_000) as int;
    let l = position.leverage as int;
    assert(position.size * high.funding_rate_bps == position.size * low.funding_rate_bps);
    assert(funding_of(position, high) == funding_of(position, low));
    if position.is_short == 0 {
        lemma_close_long(position, low);
        lemma_close_long(position, high);
    } else {
        lemma_close_short(position, low);
        lemma_close_short(position, high);
    }
    assert(q * high.mark_price == q * low.mark_price + q) by (nonlinear_arith)
        requires
            high.mark_price == low.mark_price + 1,
    ;
    assert((q * high.mark_price - q * position.entry_price) * l == (q * low.mark_price - q
        * position.entry_price) * l + q * l) by (nonlinear_arith)
        requires
            q * high.mark_price == q * low.mark_price + q,
    ;
    assert((q * position.entry_price - q * high.mark_price) * l == (q * position.entry_price - q
        * low.mark_price) * l - q * l) by (nonlinear_arith)
        requires
            q * high.mark_price == q * low.mark_price + q,
    ;
}

/// Closing a position whose direction is neither long (`0`) nor short (`1`) loses the
/// rise of the notional times the leverage, plus funding; a fall counts as no move.
pub proof fn lemma_close_other_direction(position: PositionInput, feed: PriceFeedInput)
    requires
        position.is_short != 0,
        position.is_short != 1,
        close_fits(position, feed),
    ensures
        ({
            let q = (position.size / 1_000_000) as int;
            let rise = q * feed.mark_price - q * position.entry_price;
            let lost = (if rise > 0 {
                rise
            } else {
                0
            }) * position.leverage + funding_of(position, feed);
            &&& closed_pnl(position, feed).pnl_usd_cents == lost
            &&& closed_pnl(position, feed).is_profit == if lost == 0 { 1u8 } else { 0u8 }
        }),
{
    lemma_net_pnl_bounds(position, feed);
    let q = (position.size / 1_000_000) as int;
    assert(exit_notional(position, feed) == q * feed.mark_price);
    assert(entry_notional(position) == q * position.entry_price);
}

/// Closing computes without overflow exactly when both notionals, the leveraged move and
/// the size-times-rate product fit a `u64`, and, for a loss, the leveraged move plus
/// funding fits too.
pub proof fn lemma_close_fits_exactly(position: PositionInput, feed: PriceFeedInput)
    requires
        position.is_short == 0 || position.is_short == 1,
    ensures
        ({
            let q = (position.size / 1_000_000) as int;
            let ex = q * feed.mark_price;
            let en = q * position.entry_price;
            let mv = (if ex >= en {
                ex - en
            } else {
                en - ex
            }) * position.leverage;
            let in_favour = if position.is_short == 0 {
                ex >= en
            } else {
                en >= ex
            };
            close_fits(position, feed) <==> {
                &&& en <= 0xFFFF_FFFF_FFFF_FFFF
                &&& ex <= 0xFFFF_FFFF_FFFF_FFFF
                &&& mv <= 0xFFFF_FFFF_FFFF_FFFF
                &&& position.size * feed.funding_rate_bps <= 0xFFFF_FFFF_FFFF_FFFF
                &&& !in_favour ==> mv + funding_of(position, feed) <= 0xFFFF_FFFF_FFFF_FFFF
            }
        }),
{
    let q = (position.size / 1_000_000) as int;
    assert(exit_notional(position, feed) == q * feed.mark_price);
    assert(entry_notional(position) == q * position.entry_price);
}

} // verus!
