//! Properties of the decision engine, proved over its specification.
use crate::config::{ratio_bounds_consistent, Limits, StrategyConfig};
use crate::fixed::{
    fx_div, fx_mul, lemma_div_toward_zero_bounds,
    lemma_div_toward_zero_monotone, lemma_div_toward_zero_scaled, lemma_fx_div_bound, lemma_fx_mul_bound,
    mag, within, SCALE,
};
use crate::strategy::{
    decide_spec, e2_total_spec, extended_ratio_spec, figures, figures_bounded, headed_to_b,
    idle_suffices, limit_spec, max_i, min_i, ab_ratio_spec, prim, sec,
    totals_spec, with_fees, Prices, StrategyState, Totals,
};
use crate::types::{
    prim_to_sec, sec_to_prim, Balances, E1Balances, E2Balances, EEBalances, PrimaryAsset,
    SecondaryAsset, WalletBalances,
};
use crate::utils::percent_to_ratio;
use vstd::arithmetic::div_mod::{lemma_div_by_multiple, lemma_div_is_ordered};
use vstd::prelude::*;

verus! {

/// A product with a factor of at least one unit does not shrink a non-negative amount.
pub proof fn lemma_fx_mul_grows(y: int, k: int)
    requires
        y >= 0,
        k >= SCALE,
    ensures
        fx_mul(y, k) >= y,
{
    assert(y * SCALE <= y * k) by (nonlinear_arith)
        requires
            y >= 0,
            k >= SCALE,
    ;
    lemma_div_is_ordered(y * SCALE, y * k, SCALE as int);
    lemma_div_by_multiple(y, SCALE as int);
}

/// Commissions and tolerance inflate an amount at most sixteen-fold, and never shrink it.
pub proof fn lemma_with_fees_bound(x: int, l: Limits)
    requires
        l.wf(),
    ensures
        within(with_fees(x, l), 16 * mag(x)),
        x >= 0 ==> with_fees(x, l) >= x,
{
    let one = SCALE as int;
    let a = fx_mul(x, one + l.transfer_commission@);
    let b = fx_mul(a, one + l.trade_commission@);
    let c = fx_mul(b, one + l.transfer_commission@);
    lemma_fx_mul_bound(x, one + l.transfer_commission@, 2);
    lemma_fx_mul_bound(a, one + l.trade_commission@, 2);
    lemma_fx_mul_bound(b, one + l.transfer_commission@, 2);
    lemma_fx_mul_bound(c, one + l.tolerance@, 2);
    if x >= 0 {
        lemma_fx_mul_grows(x, one + l.transfer_commission@);
        lemma_fx_mul_grows(a, one + l.trade_commission@);
        lemma_fx_mul_grows(b, one + l.transfer_commission@);
        lemma_fx_mul_grows(c, one + l.tolerance@);
    }
}

/// Every figure derived from a valid snapshot stays in its range.
pub proof fn lemma_figures_bounded(b: Balances, p: Prices, c: StrategyConfig, l: Limits)
    requires
        b.wf(),
        p.wf(),
        c.wf(),
        l.wf(),
    ensures
        figures_bounded(figures(b, p, c, l)),
{
    let one = SCALE as int;
    let f = figures(b, p, c, l);
    let m = 1_000_000int;
    lemma_fx_mul_bound(b.e2.staked_coins@ + b.e2.unstaked_coins@, p.e2.sell@, m);
    lemma_fx_mul_bound(b.ee.operational_coins@, p.e2.sell@, m);
    lemma_fx_mul_bound(l.min_withdraw_lots@, p.ee.sell@, m);
    lemma_fx_mul_bound(b.ee.operational_coins@, p.ee.sell@, m);
    let lp = c.low_ratio_percent@;
    let ip = c.initial_ratio_percent@;
    let hp = c.high_ratio_percent@;
    lemma_div_toward_zero_bounds(lp * SCALE, 100 * SCALE);
    lemma_div_toward_zero_bounds(ip * SCALE, 100 * SCALE);
    lemma_div_toward_zero_bounds(hp * SCALE, 100 * SCALE);
    lemma_div_toward_zero_scaled(lp * SCALE, 100 * SCALE, 10 * SCALE);
    lemma_div_toward_zero_scaled(ip * SCALE, 100 * SCALE, 10 * SCALE);
    lemma_div_toward_zero_scaled(hp * SCALE, 100 * SCALE, 10 * SCALE);
    assert(0 <= f.low <= 10 * SCALE && 0 <= f.init <= 10 * SCALE && 0 <= f.high <= 10 * SCALE);
    lemma_fx_mul_bound(f.total, f.init, 10);
    lemma_fx_div_bound(fx_mul(f.total, f.init), one + f.init);
    lemma_fx_mul_bound(f.total, f.low, 10);
    lemma_fx_div_bound(fx_mul(f.total, f.low), one + f.low);
    lemma_fx_div_bound(f.total, f.high + one);
    let ee_tr = b.ee.transferring_coins@;
    lemma_fx_mul_bound(ee_tr, one - l.transfer_commission@, 1);
    let ee_exch = fx_mul(crate::types::sec_to_prim(b.ee.operational_coins@, p.ee.sell@), one - l.trade_commission@);
    lemma_fx_mul_bound(crate::types::sec_to_prim(b.ee.operational_coins@, p.ee.sell@), one - l.trade_commission@, 1);
    lemma_fx_mul_bound(ee_exch, one - l.transfer_commission@, 1);
    lemma_fx_mul_bound(0, one - l.transfer_commission@, 1);
    let wallet = b.wallet.transferring_coins@;
    lemma_fx_div_bound(wallet, p.ee.buy@);
    lemma_fx_mul_bound(prim_to_sec(wallet, p.ee.buy@), one - l.trade_commission@, 1);
    lemma_fx_div_bound(ee_tr, p.ee.buy@);
    lemma_fx_mul_bound(prim_to_sec(ee_tr, p.ee.buy@), one - l.trade_commission@, 1);
    lemma_fx_mul_bound(f.e1_delta, one + l.tolerance@, 2);
}

/// Ratio formula: on a snapshot whose staking venue holds value, the ratio is
/// the margin venue's value over the staking venue's, and the extended ratio
/// is margin plus wallet over staking plus bridge venue; both are fixed-point
/// numbers cut toward zero, so `ratio * B <= A < (ratio + 1 part) * B`.
pub proof fn lemma_ratio_formula(b: Balances, p: Prices, t: Totals)
    requires
        b.wf(),
        p.wf(),
        totals_spec(t, b, p),
        t.e2@ > 0,
    ensures
        t.ratio@ == fx_div(t.e1@, t.e2@),
        t.extended_ratio@ == fx_div(t.e1@ + t.wallet@, t.e2@ + t.ee@),
        t.e2@ + t.ee@ > 0,
        t.ratio@ >= 0,
        t.ratio@ * t.e2@ <= t.e1@ * SCALE < (t.ratio@ + 1) * t.e2@,
{
    lemma_fx_mul_bound(b.ee.operational_coins@, p.e2.sell@, 1_000_000);
    crate::fixed::lemma_div_toward_zero_bounds(b.ee.operational_coins@ * p.e2.sell@, SCALE as int);
    assert(b.ee.operational_coins@ * p.e2.sell@ >= 0) by (nonlinear_arith)
        requires
            b.ee.operational_coins@ >= 0,
            p.e2.sell@ >= 0,
    ;
    let n = t.e1@ * SCALE;
    let d = t.e2@;
    assert(n >= 0) by (nonlinear_arith)
        requires
            t.e1@ >= 0,
            n == t.e1@ * SCALE,
    ;
    vstd::arithmetic::div_mod::lemma_fundamental_div_mod(n, d);
    vstd::arithmetic::div_mod::lemma_mod_pos_bound(n, d);
    vstd::arithmetic::div_mod::lemma_div_pos_is_pos(n, d);
    let q = n / d;
    assert(q * d <= n < (q + 1) * d) by (nonlinear_arith)
        requires
            n == d * q + n % d,
            0 <= n % d < d,
    ;
}

/// Detection is a function of the snapshot: two detections on the same
/// unchanged snapshot and configuration choose the same action.
pub proof fn lemma_detection_repeatable(
    b: Balances,
    p: Prices,
    c: StrategyConfig,
    l: Limits,
    first: StrategyState,
    second: StrategyState,
)
    requires
        Some(first) == decide_spec(b, p, c, l),
        Some(second) == decide_spec(b, p, c, l),
    ensures
        first == second,
{
}

/// Range facts the laws below need about the amounts the engine computes.
proof fn lemma_amounts_bounded(b: Balances, p: Prices, c: StrategyConfig, l: Limits)
    requires
        b.wf(),
        p.wf(),
        c.wf(),
        l.wf(),
    ensures
        within(
            prim_to_sec(with_fees(figures(b, p, c, l).e1_lack, l), p.ee.sell@),
            10_000_000_000_000_000_000_000_000_000_000_000_000,
        ),
        within(
            fx_div(
                figures(b, p, c, l).e1_total - fx_mul(figures(b, p, c, l).e2_total, figures(b, p, c, l).init),
                SCALE + figures(b, p, c, l).init,
            ),
            100_000_000_000_000_000_000_000_000_000,
        ),
{
    let f = figures(b, p, c, l);
    lemma_figures_bounded(b, p, c, l);
    lemma_with_fees_bound(f.e1_lack, l);
    let w = with_fees(f.e1_lack, l);
    assert(mag(w) <= 16_000_000_000_000_000_000_000_000_000);
    lemma_fx_div_bound(w, p.ee.sell@);
    assert(mag(w) * SCALE <= 1_600_000_000_000_000_000_000_000_000_000_000_000) by (nonlinear_arith)
        requires
            mag(w) <= 16_000_000_000_000_000_000_000_000_000,
    ;

    lemma_fx_mul_bound(f.e2_total, f.init, 10);
    lemma_fx_div_bound(f.e1_total - fx_mul(f.e2_total, f.init), SCALE + f.init);
    let delta0 = max_i(f.limit, fx_div(f.e1_total - fx_mul(f.e2_total, f.init), SCALE + f.init));
    lemma_with_fees_bound(delta0, l);
}

/// Dust rule, for transfers off the staking venue: the amount is the whole
/// unstaked balance, or it leaves at least one unit behind even after the
/// tolerance is added to it.
pub proof fn lemma_dust_rule_staking_transfer(
    b: Balances,
    p: Prices,
    c: StrategyConfig,
    l: Limits,
    x: SecondaryAsset,
)
    requires
        b.wf(),
        p.wf(),
        c.wf(),
        l.wf(),
        decide_spec(b, p, c, l) == Some(StrategyState::TransferE2ToEE(x)),
    ensures
        x@ == b.e2.unstaked_coins@ || b.e2.unstaked_coins@ - fx_mul(x@, SCALE + l.tolerance@) >= SCALE,
{
    lemma_figures_bounded(b, p, c, l);
    lemma_amounts_bounded(b, p, c, l);
}

/// Dust rule, for idle funds sent on from the bridge venue: when the idle
/// funds are headed for the margin venue and cover its need, but the wallet
/// alone does not, the settlement token leaving the bridge venue is its whole
/// balance, or what stays there is worth at least one unit of the staked
/// token even after the tolerance is added to the amount.
pub proof fn lemma_dust_rule_bridge_transfer(
    b: Balances,
    p: Prices,
    c: StrategyConfig,
    l: Limits,
    x: PrimaryAsset,
)
    requires
        b.wf(),
        p.wf(),
        c.wf(),
        l.wf(),
        e2_total_spec(b, p) > 0,
        figures(b, p, c, l).eew_transferable > figures(b, p, c, l).limit,
        idle_suffices(figures(b, p, c, l)),
        !headed_to_b(figures(b, p, c, l)),
        figures(b, p, c, l).e1_delta >= figures(b, p, c, l).limit,
        figures(b, p, c, l).eew_transferable >= figures(b, p, c, l).e1_delta,
        b.wallet.transferring_coins@ < figures(b, p, c, l).e1_delta,
        decide_spec(b, p, c, l) == Some(StrategyState::TransferEEToWallet(x)),
    ensures
        x@ == b.ee.transferring_coins@ || b.ee.transferring_coins@ - fx_mul(x@, SCALE + l.tolerance@)
            >= sec_to_prim(SCALE as int, p.ee.buy@),
{
    lemma_figures_bounded(b, p, c, l);
}

/// Dust rule, for unstaking: the amount is the whole staked balance, or it
/// leaves at least one unit staked. (A staked balance under one unit is
/// unstaked as one unit, so it is left out.)
pub proof fn lemma_dust_rule_unstake(b: Balances, p: Prices, c: StrategyConfig, l: Limits, x: SecondaryAsset)
    requires
        b.wf(),
        p.wf(),
        c.wf(),
        l.wf(),
        b.e2.staked_coins@ >= SCALE,
        decide_spec(b, p, c, l) == Some(StrategyState::Unstake(x)),
    ensures
        x@ == b.e2.staked_coins@ || b.e2.staked_coins@ - x@ >= SCALE,
{
    lemma_figures_bounded(b, p, c, l);
    lemma_amounts_bounded(b, p, c, l);
}

/// Minimum amounts, whether or not the ratio is in the band: every transfer
/// of the settlement token out of the margin venue, the wallet or (to the
/// wallet) the bridge venue is at least that venue's minimum, and every
/// transfer, stake or unstake of the staked token is at least one unit.
pub proof fn lemma_minimum_amounts(b: Balances, p: Prices, c: StrategyConfig, l: Limits, s: StrategyState)
    requires
        b.wf(),
        p.wf(),
        c.wf(),
        l.wf(),
        decide_spec(b, p, c, l) == Some(s),
    ensures
        s is TransferE1ToWallet ==> s->TransferE1ToWallet_0@ >= limit_spec(p, l),
        s is TransferWalletToEE ==> s->TransferWalletToEE_0@ >= limit_spec(p, l),
        s is TransferWalletToE1 ==> s->TransferWalletToE1_0@ >= limit_spec(p, l),
        s is TransferEEToWallet ==> s->TransferEEToWallet_0@ >= l.min_bridge_transfer@,
        s is TransferEEToE2 ==> s->TransferEEToE2_0@ >= SCALE,
        s is TransferE2ToEE ==> s->TransferE2ToEE_0@ >= SCALE,
        s is Stake ==> s->Stake_0@ >= SCALE,
        s is Unstake ==> s->Unstake_0@ >= SCALE,
{
    let f = figures(b, p, c, l);
    lemma_figures_bounded(b, p, c, l);
    lemma_amounts_bounded(b, p, c, l);
    let delta0 = max_i(f.limit, fx_div(f.e1_total - fx_mul(f.e2_total, f.init), SCALE + f.init));
    lemma_with_fees_bound(delta0, l);
    if f.e1_delta >= 0 {
        lemma_fx_mul_grows(f.e1_delta, SCALE + l.tolerance@);
    }
    lemma_fx_mul_bound(min_i(f.e1_lack, b.wallet.transferring_coins@), SCALE + l.tolerance@, 2);
}

/// Convergence, above the band: when the extended ratio is above the high
/// bound and the wallet and bridge venue hold nothing worth moving, the engine
/// withdraws a positive amount from the margin venue, so that venue's value,
/// and with it the margin-over-staking ratio, falls.
pub proof fn lemma_above_band_withdraws_from_margin(b: Balances, p: Prices, c: StrategyConfig, l: Limits)
    requires
        b.wf(),
        p.wf(),
        c.wf(),
        l.wf(),
        ratio_bounds_consistent(c),
        e2_total_spec(b, p) > 0,
        figures(b, p, c, l).eew_transferable <= limit_spec(p, l),
        extended_ratio_spec(b, p) > percent_to_ratio(c.high_ratio_percent@),
    ensures
        decide_spec(b, p, c, l) is Some,
        decide_spec(b, p, c, l)->Some_0 is TransferE1ToWallet,
        decide_spec(b, p, c, l)->Some_0->TransferE1ToWallet_0@ > 0,
        b.e1.total@ - decide_spec(b, p, c, l)->Some_0->TransferE1ToWallet_0@ < b.e1.total@,
{
    let f = figures(b, p, c, l);
    lemma_figures_bounded(b, p, c, l);
    lemma_amounts_bounded(b, p, c, l);
    let lp = c.low_ratio_percent@;
    let hp = c.high_ratio_percent@;
    vstd::arithmetic::div_mod::lemma_div_is_ordered(lp * SCALE, hp * SCALE, 100 * SCALE);
    assert(f.low <= f.high);
    let delta0 = max_i(f.limit, fx_div(f.e1_total - fx_mul(f.e2_total, f.init), SCALE + f.init));
    lemma_with_fees_bound(delta0, l);
    lemma_fx_mul_bound(l.min_withdraw_lots@, p.ee.sell@, 1_000_000);
}

/// Convergence, below the band: when the extended ratio is under the low
/// bound and the wallet and bridge venue hold nothing worth moving, the engine
/// either unstakes at least one unit or moves at least one unit of the staked
/// token off the staking venue, both on the way to the margin venue; when less
/// than a unit would move, it waits.
pub proof fn lemma_below_band_moves_toward_margin(b: Balances, p: Prices, c: StrategyConfig, l: Limits)
    requires
        b.wf(),
        p.wf(),
        c.wf(),
        l.wf(),
        e2_total_spec(b, p) > 0,
        figures(b, p, c, l).eew_transferable <= limit_spec(p, l),
        extended_ratio_spec(b, p) < percent_to_ratio(c.low_ratio_percent@),
    ensures
        decide_spec(b, p, c, l) is Some,
        decide_spec(b, p, c, l)->Some_0 is Unstake || decide_spec(b, p, c, l)->Some_0 is TransferE2ToEE
            || decide_spec(b, p, c, l)->Some_0 is Monitoring,
        decide_spec(b, p, c, l)->Some_0 is Unstake ==> decide_spec(b, p, c, l)->Some_0->Unstake_0@ >= SCALE,
        decide_spec(b, p, c, l)->Some_0 is TransferE2ToEE ==> decide_spec(b, p, c, l)->Some_0->TransferE2ToEE_0@
            >= SCALE,
{
    lemma_figures_bounded(b, p, c, l);
    lemma_amounts_bounded(b, p, c, l);
    lemma_fx_mul_bound(l.min_withdraw_lots@, p.ee.sell@, 1_000_000);
}

/// Balances once an operation has settled exactly, with no fees and no price
/// move: what leaves one account arrives at the next. Other operations are
/// left unchanged here.
pub open spec fn settled(b: Balances, s: StrategyState) -> Balances {
    match s {
        StrategyState::TransferE1ToWallet(x) => Balances {
            e1: E1Balances {
                total: prim(b.e1.total@ - x@),
                free: prim(b.e1.free@ - x@),
                operational_coins: b.e1.operational_coins,
            },
            e2: b.e2,
            ee: b.ee,
            wallet: WalletBalances {
                transferring_coins: prim(b.wallet.transferring_coins@ + x@),
                gas_coins: b.wallet.gas_coins,
            },
        },
        StrategyState::TransferE2ToEE(x) => Balances {
            e1: b.e1,
            e2: E2Balances {
                transferring_coins: b.e2.transferring_coins,
                intermediate_coins: b.e2.intermediate_coins,
                staked_coins: b.e2.staked_coins,
                unstaked_coins: sec(b.e2.unstaked_coins@ - x@),
            },
            ee: EEBalances {
                transferring_coins: b.ee.transferring_coins,
                operational_coins: sec(b.ee.operational_coins@ + x@),
            },
            wallet: b.wallet,
        },
        _ => b,
    }
}

/// Convergence above the band, over settled balances: with the ratio above
/// the high bound and no idle funds worth moving, once the chosen withdrawal
/// settles the margin venue holds strictly less, the staking venue the same,
/// and the margin-over-staking ratio has not risen.
pub proof fn lemma_above_band_settles_lower(b: Balances, p: Prices, c: StrategyConfig, l: Limits)
    requires
        b.wf(),
        p.wf(),
        c.wf(),
        l.wf(),
        ratio_bounds_consistent(c),
        e2_total_spec(b, p) > 0,
        figures(b, p, c, l).eew_transferable <= limit_spec(p, l),
        extended_ratio_spec(b, p) > percent_to_ratio(c.high_ratio_percent@),
    ensures
        settled(b, decide_spec(b, p, c, l)->Some_0).e1.total@ < b.e1.total@,
        e2_total_spec(settled(b, decide_spec(b, p, c, l)->Some_0), p) == e2_total_spec(b, p),
        ab_ratio_spec(settled(b, decide_spec(b, p, c, l)->Some_0), p) <= ab_ratio_spec(b, p),
{
    lemma_above_band_withdraws_from_margin(b, p, c, l);
    let f = figures(b, p, c, l);
    lemma_figures_bounded(b, p, c, l);
    lemma_amounts_bounded(b, p, c, l);
    let delta0 = max_i(f.limit, fx_div(f.e1_total - fx_mul(f.e2_total, f.init), SCALE + f.init));
    lemma_with_fees_bound(delta0, l);
    let x = decide_spec(b, p, c, l)->Some_0->TransferE1ToWallet_0@;
    let a = b.e1.total@;
    let d = e2_total_spec(b, p);
    assert((a - x) * SCALE <= a * SCALE) by (nonlinear_arith)
        requires
            x > 0,
    ;
    lemma_div_toward_zero_monotone((a - x) * SCALE, a * SCALE, d);
}

/// Convergence below the band, over settled balances: a transfer of the
/// staked token off the staking venue leaves that venue's value no higher,
/// so while it still holds value the margin-over-staking ratio has not fallen.
pub proof fn lemma_staking_transfer_settles_higher(b: Balances, p: Prices, c: StrategyConfig, l: Limits, x: SecondaryAsset)
    requires
        b.wf(),
        p.wf(),
        c.wf(),
        l.wf(),
        e2_total_spec(b, p) > 0,
        decide_spec(b, p, c, l) == Some(StrategyState::TransferE2ToEE(x)),
    ensures
        x@ >= SCALE,
        e2_total_spec(settled(b, StrategyState::TransferE2ToEE(x)), p) <= e2_total_spec(b, p),
        e2_total_spec(settled(b, StrategyState::TransferE2ToEE(x)), p) > 0 ==> ab_ratio_spec(
            settled(b, StrategyState::TransferE2ToEE(x)),
            p,
        ) >= ab_ratio_spec(b, p),
{
    lemma_minimum_amounts(b, p, c, l, StrategyState::TransferE2ToEE(x));
    lemma_dust_rule_staking_transfer(b, p, c, l, x);
    lemma_figures_bounded(b, p, c, l);
    lemma_amounts_bounded(b, p, c, l);
    let after = settled(b, StrategyState::TransferE2ToEE(x));
    let held = b.e2.staked_coins@ + b.e2.unstaked_coins@;
    assert(after.e2.unstaked_coins@ == b.e2.unstaked_coins@ - x@);
    let price = p.e2.sell@;
    assert((held - x@) * price <= held * price) by (nonlinear_arith)
        requires
            x@ >= 0,
            price > 0,
    ;
    lemma_div_toward_zero_monotone((held - x@) * price, held * price, SCALE as int);
    let d1 = e2_total_spec(after, p);
    let d2 = e2_total_spec(b, p);
    if d1 > 0 {
        let n = b.e1.total@ * SCALE;
        assert(n >= 0) by (nonlinear_arith)
            requires
                b.e1.total@ >= 0,
                n == b.e1.total@ * SCALE,
        ;
        vstd::arithmetic::div_mod::lemma_div_is_ordered_by_denominator(n, d1, d2);
    }
}

} // verus!
