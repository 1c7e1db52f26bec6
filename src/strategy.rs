//! The decision engine: one balance snapshot and the configuration in, one
//! corrective action out.
use crate::config::{Limits, StrategyConfig};
use crate::fixed::{fx_div, fx_mul, mag, within, Value, SCALE};
use crate::types::{
    prim_to_sec, sec_to_prim, Balances, BuySellPrice, PrimaryAsset, SecondaryAsset,
    StrategyError,
};
use crate::utils::{percent_to_decimal, percent_to_ratio};
use vstd::prelude::*;

verus! {

/// The corrective actions, each with the amount it moves.
#[derive(Clone, Copy, Debug, PartialEq, Eq, Structural)]
pub enum StrategyState {
    Monitoring,
    // The margin venue holds too much.
    TransferE1ToWallet(PrimaryAsset),
    TransferWalletToEE(PrimaryAsset),
    TransferEEToE2(SecondaryAsset),
    Stake(SecondaryAsset),
    ReduceShort(SecondaryAsset),
    EnlargeShort(SecondaryAsset),
    EnlargeSecondaryBoth(PrimaryAsset),
    // The margin venue holds too little.
    Unstake(SecondaryAsset),
    TransferE2ToEE(SecondaryAsset),
    TransferEEToWallet(PrimaryAsset),
    TransferWalletToE1(PrimaryAsset),
    ReduceSecondaryBoth(PrimaryAsset),
}

/// The operator's description of each state.
pub open spec fn state_message_spec(s: StrategyState) -> Seq<char> {
    match s {
        StrategyState::Monitoring => "Monitoring"@,
        StrategyState::TransferE1ToWallet(_) => "Overflow: transfer from dYdX to Wallet"@,
        StrategyState::TransferWalletToEE(_) => "Overflow: transfer from Wallet to Binance"@,
        StrategyState::TransferEEToE2(_) => "Overflow: transfer from Binance to Kraken"@,
        StrategyState::Stake(_) => "Overflow: stake on Kraken"@,
        StrategyState::ReduceShort(_) => "Overflow: reduce short position on dYdX"@,
        StrategyState::EnlargeShort(_) => "Overflow: enlarge short position on dYdX"@,
        StrategyState::EnlargeSecondaryBoth(_) => "Overflow: enlarge ATOM positions"@,
        StrategyState::Unstake(_) => "Underflow: unstake"@,
        StrategyState::TransferE2ToEE(_) => "Underflow: transfer Kraken to Binance"@,
        StrategyState::TransferEEToWallet(_) => "Underflow: transfer Binance to Wallet"@,
        StrategyState::TransferWalletToE1(_) => "Underflow: transfer Wallet to dYdX"@,
        StrategyState::ReduceSecondaryBoth(_) => "Underflow: reduce ATOM positions"@,
    }
}

impl StrategyState {
    /// A one-line description for operators.
    pub fn get_message(&self) -> (r: &'static str)
        ensures
            r@ == state_message_spec(*self),
    {
        match self {
            StrategyState::Monitoring => "Monitoring",
            StrategyState::TransferE1ToWallet(_) => "Overflow: transfer from dYdX to Wallet",
            StrategyState::TransferWalletToEE(_) => "Overflow: transfer from Wallet to Binance",
            StrategyState::TransferEEToE2(_) => "Overflow: transfer from Binance to Kraken",
            StrategyState::Stake(_) => "Overflow: stake on Kraken",
            StrategyState::ReduceShort(_) => "Overflow: reduce short position on dYdX",
            StrategyState::EnlargeShort(_) => "Overflow: enlarge short position on dYdX",
            StrategyState::EnlargeSecondaryBoth(_) => "Overflow: enlarge ATOM positions",
            StrategyState::Unstake(_) => "Underflow: unstake",
            StrategyState::TransferE2ToEE(_) => "Underflow: transfer Kraken to Binance",
            StrategyState::TransferEEToWallet(_) => "Underflow: transfer Binance to Wallet",
            StrategyState::TransferWalletToE1(_) => "Underflow: transfer Wallet to dYdX",
            StrategyState::ReduceSecondaryBoth(_) => "Underflow: reduce ATOM positions",
        }
    }
}

/// The operator's description of a state.
pub fn pretty_state_msg(s: &StrategyState) -> (r: String)
    ensures
        r@ == state_message_spec(*s),
{
    String::from_str(s.get_message())
}

/// Rates quoted by the three venues in one cycle.
#[derive(Clone, Copy, Debug, PartialEq, Eq, Structural)]
pub struct Prices {
    pub e1: BuySellPrice,
    pub e2: BuySellPrice,
    pub ee: BuySellPrice,
}

impl Prices {
    pub open spec fn wf(&self) -> bool {
        self.e1.wf() && self.e2.wf() && self.ee.wf()
    }
}

/// Per-venue values in the settlement token, and the two ratios.
#[derive(Clone, Copy, Debug, PartialEq, Eq, Structural)]
pub struct Totals {
    pub e1: PrimaryAsset,
    pub e2: PrimaryAsset,
    pub ee: PrimaryAsset,
    pub wallet: PrimaryAsset,
    pub total: PrimaryAsset,
    /// Margin venue over staking venue.
    pub ratio: Value,
    /// As `ratio`, with the wallet counted on the margin side and the bridge
    /// venue on the staking side.
    pub extended_ratio: Value,
}

/// The chosen action with the figures it was chosen from.
#[derive(Clone, Copy, Debug, PartialEq, Eq, Structural)]
pub struct Detection {
    pub state: StrategyState,
    pub totals: Totals,
}

pub open spec fn prim(x: int) -> PrimaryAsset {
    PrimaryAsset(Value { raw: x as i128 })
}

pub open spec fn sec(x: int) -> SecondaryAsset {
    SecondaryAsset(Value { raw: x as i128 })
}

pub open spec fn min_i(a: int, b: int) -> int {
    if a <= b {
        a
    } else {
        b
    }
}

pub open spec fn max_i(a: int, b: int) -> int {
    if a >= b {
        a
    } else {
        b
    }
}

pub open spec fn e2_total_spec(b: Balances, p: Prices) -> int {
    b.e2.transferring_coins@ + b.e2.intermediate_coins@ + sec_to_prim(
        b.e2.staked_coins@ + b.e2.unstaked_coins@,
        p.e2.sell@,
    )
}

pub open spec fn ee_total_spec(b: Balances, p: Prices) -> int {
    b.ee.transferring_coins@ + sec_to_prim(b.ee.operational_coins@, p.e2.sell@)
}

pub open spec fn total_spec(b: Balances, p: Prices) -> int {
    b.e1.total@ + e2_total_spec(b, p) + ee_total_spec(b, p) + b.wallet.transferring_coins@
}

/// The margin venue's value over the staking venue's.
pub open spec fn ab_ratio_spec(b: Balances, p: Prices) -> int {
    fx_div(b.e1.total@, e2_total_spec(b, p))
}

/// Wallet funds counted with the margin venue, bridge funds with the staking venue.
pub open spec fn extended_ratio_spec(b: Balances, p: Prices) -> int {
    fx_div(
        b.e1.total@ + b.wallet.transferring_coins@,
        e2_total_spec(b, p) + ee_total_spec(b, p),
    )
}

pub open spec fn totals_spec(t: Totals, b: Balances, p: Prices) -> bool {
    &&& t.e1@ == b.e1.total@
    &&& t.e2@ == e2_total_spec(b, p)
    &&& t.ee@ == ee_total_spec(b, p)
    &&& t.wallet@ == b.wallet.transferring_coins@
    &&& t.total@ == total_spec(b, p)
    &&& t.ratio@ == ab_ratio_spec(b, p)
    &&& t.extended_ratio@ == extended_ratio_spec(b, p)
}

/// Bound on every derived figure.
pub open spec fn fig_ok(x: int) -> bool {
    within(x, 1_000_000_000_000_000_000_000_000_000)
}

pub open spec fn totals_bounded(t: Totals) -> bool {
    &&& within(t.total@, 10_000_000_000_000_000_000_000_000)
    &&& within(t.e2@, 10_000_000_000_000_000_000_000_000)
    &&& within(t.ee@, 10_000_000_000_000_000_000_000_000)
}

/// Every quantity the decision reads, derived from one snapshot.
pub ghost struct Figures {
    pub e1_total: int,
    pub e2_total: int,
    pub ee_total: int,
    pub ew_total: int,
    pub total: int,
    pub low: int,
    pub init: int,
    pub high: int,
    /// Smallest amount worth moving out of the wallet or the bridge venue.
    pub limit: int,
    pub expected_e1: int,
    pub expected_e1_low: int,
    pub expected_e2_low: int,
    pub e1_lack: int,
    pub eew_transferable: int,
    pub ee_total_transferable_to_sec: int,
    pub e1_delta: int,
    pub e1_delta_with_tol: int,
    pub ex_ratio: int,
}

pub open spec fn eew_transferable_spec(b: Balances, p: Prices, l: Limits) -> int {
    let one = SCALE as int;
    let ee_tr = b.ee.transferring_coins@;
    let ee_op = b.ee.operational_coins@;
    let ee_prim_transferable = if ee_tr >= l.min_bridge_transfer@ {
        fx_mul(ee_tr, one - l.transfer_commission@)
    } else {
        0
    };
    let ee_exchangable = if ee_op >= l.min_lot@ {
        fx_mul(sec_to_prim(ee_op, p.ee.sell@), one - l.trade_commission@)
    } else {
        0
    };
    let pre = ee_prim_transferable + fx_mul(ee_exchangable, one - l.transfer_commission@);
    b.wallet.transferring_coins@ + (if pre >= l.min_bridge_transfer@ {
        pre
    } else {
        0
    })
}

pub open spec fn limit_spec(p: Prices, l: Limits) -> int {
    max_i(l.min_withdraw@, sec_to_prim(l.min_withdraw_lots@, p.ee.sell@))
}

pub open spec fn ee_total_transferable_to_sec_spec(b: Balances, p: Prices, l: Limits) -> int {
    let one = SCALE as int;
    let wallet = b.wallet.transferring_coins@;
    let wallet_to_sec = if wallet >= limit_spec(p, l) {
        fx_mul(prim_to_sec(wallet, p.ee.buy@), one - l.trade_commission@)
    } else {
        0
    };
    let ee_prim = fx_mul(prim_to_sec(b.ee.transferring_coins@, p.ee.buy@), one - l.trade_commission@);
    let pre = wallet_to_sec + ee_prim;
    (if pre >= one {
        pre
    } else {
        0
    }) + b.ee.operational_coins@
}

pub open spec fn figures(b: Balances, p: Prices, c: StrategyConfig, l: Limits) -> Figures {
    let one = SCALE as int;
    let e1_total = b.e1.total@;
    let e2_total = e2_total_spec(b, p);
    let ee_total = ee_total_spec(b, p);
    let ew_total = b.wallet.transferring_coins@ + ee_total;
    let total = total_spec(b, p);
    let low = percent_to_ratio(c.low_ratio_percent@);
    let init = percent_to_ratio(c.initial_ratio_percent@);
    let high = percent_to_ratio(c.high_ratio_percent@);
    let expected_e1 = fx_div(fx_mul(total, init), one + init);
    let e1_delta = min_i(ew_total, expected_e1 - e1_total);
    Figures {
        e1_total,
        e2_total,
        ee_total,
        ew_total,
        total,
        low,
        init,
        high,
        limit: limit_spec(p, l),
        expected_e1,
        expected_e1_low: fx_div(fx_mul(total, low), one + low),
        expected_e2_low: fx_div(total, high + one),
        e1_lack: expected_e1 - e1_total,
        eew_transferable: eew_transferable_spec(b, p, l),
        ee_total_transferable_to_sec: ee_total_transferable_to_sec_spec(b, p, l),
        e1_delta,
        e1_delta_with_tol: fx_mul(e1_delta, one + l.tolerance@),
        ex_ratio: extended_ratio_spec(b, p),
    }
}

pub open spec fn figures_bounded(f: Figures) -> bool {
    &&& fig_ok(f.e1_total) && fig_ok(f.e2_total) && fig_ok(f.ee_total)
    &&& fig_ok(f.ew_total) && fig_ok(f.total)
    &&& 0 <= f.low <= 10 * SCALE && 0 <= f.init <= 10 * SCALE && 0 <= f.high <= 10 * SCALE
    &&& 0 <= f.limit <= 1_000_000_000_000_000_000_000_000
    &&& fig_ok(f.expected_e1) && fig_ok(f.expected_e1_low) && fig_ok(f.expected_e2_low)
    &&& fig_ok(f.e1_lack) && fig_ok(f.eew_transferable)
    &&& fig_ok(f.ee_total_transferable_to_sec)
    &&& fig_ok(f.e1_delta) && fig_ok(f.e1_delta_with_tol)
}

/// The figures of one snapshot, computed once per detection.
struct Basis {
    e1_total: PrimaryAsset,
    e2_total: PrimaryAsset,
    ee_total: PrimaryAsset,
    ew_total: PrimaryAsset,
    total: PrimaryAsset,
    low: Value,
    init: Value,
    high: Value,
    limit: PrimaryAsset,
    expected_e1: PrimaryAsset,
    expected_e1_low: PrimaryAsset,
    expected_e2_low: PrimaryAsset,
    e1_lack: PrimaryAsset,
    eew_transferable: PrimaryAsset,
    ee_total_transferable_to_sec: SecondaryAsset,
    e1_delta: PrimaryAsset,
    e1_delta_with_tol: PrimaryAsset,
    ex_ratio: Value,
}

impl View for Basis {
    type V = Figures;

    closed spec fn view(&self) -> Figures {
        Figures {
            e1_total: self.e1_total@,
            e2_total: self.e2_total@,
            ee_total: self.ee_total@,
            ew_total: self.ew_total@,
            total: self.total@,
            low: self.low@,
            init: self.init@,
            high: self.high@,
            limit: self.limit@,
            expected_e1: self.expected_e1@,
            expected_e1_low: self.expected_e1_low@,
            expected_e2_low: self.expected_e2_low@,
            e1_lack: self.e1_lack@,
            eew_transferable: self.eew_transferable@,
            ee_total_transferable_to_sec: self.ee_total_transferable_to_sec@,
            e1_delta: self.e1_delta@,
            e1_delta_with_tol: self.e1_delta_with_tol@,
            ex_ratio: self.ex_ratio@,
        }
    }
}

/// The per-venue values of a snapshot, and its two ratios. `Err` exactly when
/// the staking venue's value is not positive, so that no ratio exists.
pub fn compute_totals(b: &Balances, p: &Prices) -> (r: Result<Totals, StrategyError>)
    requires
        b.wf(),
        p.wf(),
    ensures
        r is Ok <==> e2_total_spec(*b, *p) > 0,
        r is Ok ==> totals_spec(r->Ok_0, *b, *p),
        r is Ok ==> totals_bounded(r->Ok_0),
{
    let staked_all = b.e2.staked_coins.plus(b.e2.unstaked_coins);
    let e2_total = b.e2.transferring_coins.plus(b.e2.intermediate_coins).plus(
        staked_all.to_prim(p.e2.sell),
    );
    let ee_total = b.ee.transferring_coins.plus(b.ee.operational_coins.to_prim(p.e2.sell));
    let e1_total = b.e1.total;
    let wallet_total = b.wallet.transferring_coins;
    let total = e1_total.plus(e2_total).plus(ee_total).plus(wallet_total);
    if e2_total.0.raw <= 0 {
        return Err(StrategyError::misc("the staking venue holds no value: the ratio is undefined"));
    }
    let ratio = e1_total.ratio_to(e2_total);
    let extended_ratio = e1_total.plus(wallet_total).ratio_to(e2_total.plus(ee_total));
    Ok(Totals { e1: e1_total, e2: e2_total, ee: ee_total, wallet: wallet_total, total, ratio, extended_ratio })
}

/// The largest single order allowed, in the settlement token.
pub open spec fn order_prim_spec(x: int, l: Limits) -> int {
    min_i(x, l.max_order@)
}

/// The largest single order allowed, in the staked token at `price`.
pub open spec fn order_sec_spec(x: int, price: int, l: Limits) -> int {
    min_i(x, prim_to_sec(l.max_order@, price))
}

/// Idle funds headed for the margin venue: the wallet first, then the bridge
/// venue's settlement token, then its staked token converted.
pub open spec fn toward_a_spec(f: Figures, b: Balances, p: Prices, l: Limits) -> Option<StrategyState> {
    let one = SCALE as int;
    let tol1 = one + l.tolerance@;
    let wallet = b.wallet.transferring_coins@;
    let ee_tr = b.ee.transferring_coins@;
    let ee_op = b.ee.operational_coins@;
    if f.eew_transferable < f.e1_delta {
        // Not enough to cover the need: move what can be moved.
        if ee_op >= l.min_lot@ {
            Some(StrategyState::ReduceSecondaryBoth(prim(order_prim_spec(sec_to_prim(ee_op, p.ee.sell@), l))))
        } else if ee_tr >= l.min_bridge_transfer@ {
            Some(StrategyState::TransferEEToWallet(prim(ee_tr)))
        } else if wallet >= f.limit {
            Some(StrategyState::TransferWalletToE1(prim(wallet)))
        } else {
            None
        }
    } else if wallet >= f.e1_delta {
        Some(StrategyState::TransferWalletToE1(prim(min_i(wallet, f.e1_delta_with_tol))))
    } else {
        let to_transfer = max_i(l.min_bridge_transfer@, f.e1_delta_with_tol - wallet);
        let ee_op_prim = sec_to_prim(ee_op, p.ee.sell@);
        let one_prim = sec_to_prim(one, p.ee.sell@);
        let to_exchange = if fx_mul(to_transfer, tol1) >= ee_op_prim + ee_tr {
            ee_op_prim
        } else {
            max_i(to_transfer - ee_tr, one_prim)
        };
        if to_exchange > one_prim {
            Some(StrategyState::ReduceSecondaryBoth(prim(order_prim_spec(to_exchange, l))))
        } else {
            let pre = min_i(max_i(f.e1_delta_with_tol - wallet, l.min_bridge_transfer@), ee_tr);
            let amount = if ee_tr - fx_mul(pre, tol1) < sec_to_prim(one, p.ee.buy@) {
                ee_tr
            } else {
                pre
            };
            if amount >= l.min_bridge_transfer@ {
                Some(StrategyState::TransferEEToWallet(prim(amount)))
            } else {
                None
            }
        }
    }
}

/// Idle funds headed for the staking venue.
pub open spec fn toward_b_spec(f: Figures, b: Balances, p: Prices, l: Limits) -> Option<StrategyState> {
    let one = SCALE as int;
    let wallet = b.wallet.transferring_coins@;
    let ee_tr = b.ee.transferring_coins@;
    let ee_op = b.ee.operational_coins@;
    if f.ee_total_transferable_to_sec < one {
        None
    } else if wallet >= f.limit {
        Some(StrategyState::TransferWalletToEE(prim(wallet)))
    } else if prim_to_sec(ee_tr, p.ee.buy@) >= one {
        Some(StrategyState::EnlargeSecondaryBoth(prim(order_prim_spec(ee_tr, l))))
    } else if ee_op >= one {
        Some(StrategyState::TransferEEToE2(sec(ee_op)))
    } else {
        None
    }
}

pub open spec fn in_band(f: Figures, r: int) -> bool {
    f.low <= r < f.high
}

/// Whether idle funds look as if the last cycle sent them toward the staking
/// venue: exactly one of the two guesses at the earlier ratio is in the band,
/// and it is the one that counts them with the staking venue.
pub open spec fn headed_to_b(f: Figures) -> bool {
    let if_to_a = fx_div(f.e1_total + f.ew_total, f.e2_total);
    let if_to_b = fx_div(f.e1_total, f.e2_total + f.ew_total);
    (in_band(f, if_to_a) != in_band(f, if_to_b)) && in_band(f, if_to_b)
}

/// Both venues could be brought into the band from the idle funds alone.
pub open spec fn idle_suffices(f: Figures) -> bool {
    f.e1_total + f.ew_total >= f.expected_e1_low && f.e2_total + f.ew_total >= f.expected_e2_low
}

pub open spec fn redistribute_spec(f: Figures, b: Balances, p: Prices, l: Limits) -> Option<StrategyState> {
    if !headed_to_b(f) && f.e1_delta >= f.limit && f.eew_transferable >= f.limit {
        toward_a_spec(f, b, p, l)
    } else {
        toward_b_spec(f, b, p, l)
    }
}

/// One venue is off by more than the idle funds can mend.
pub open spec fn withdraw_spec(f: Figures, b: Balances, p: Prices, l: Limits) -> Option<StrategyState> {
    let one = SCALE as int;
    let tol1 = one + l.tolerance@;
    let wallet = b.wallet.transferring_coins@;
    let ee_tr = b.ee.transferring_coins@;
    let ee_op = b.ee.operational_coins@;
    if -f.e1_lack > f.limit {
        let to_cancel = sec_to_prim(-b.e1.operational_coins@, p.e1.buy@) - fx_mul(
            fx_mul(f.e1_total + f.e1_lack, l.max_leverage@),
            tol1,
        );
        if to_cancel <= 0 {
            Some(StrategyState::TransferE1ToWallet(prim(-f.e1_lack)))
        } else {
            let least = sec_to_prim(fx_mul(one, tol1), p.e1.buy@);
            Some(StrategyState::ReduceSecondaryBoth(prim(order_prim_spec(max_i(to_cancel, least), l))))
        }
    } else if f.e1_lack > f.limit {
        let from_wallet = fx_mul(min_i(f.e1_lack, wallet), tol1);
        if wallet - f.e1_lack >= -f.limit && from_wallet >= f.limit {
            Some(StrategyState::TransferWalletToE1(prim(from_wallet)))
        } else if f.ee_total + wallet - f.e1_lack >= -f.limit {
            let ee_delta = max_i(
                fx_mul(f.e1_lack - wallet, one + l.transfer_commission@),
                l.min_bridge_transfer@,
            );
            if ee_delta <= ee_tr || ee_op < one {
                if min_i(ee_delta, ee_tr) >= l.min_bridge_transfer@ {
                    Some(StrategyState::TransferEEToWallet(prim(min_i(ee_delta, ee_tr))))
                } else {
                    None
                }
            } else {
                let to_sell = min_i(ee_op, prim_to_sec(ee_delta - ee_tr, p.ee.sell@));
                Some(StrategyState::ReduceSecondaryBoth(prim(order_prim_spec(sec_to_prim(to_sell, p.ee.sell@), l))))
            }
        } else {
            None
        }
    } else {
        None
    }
}

pub open spec fn idle_spec(f: Figures, b: Balances, p: Prices, l: Limits) -> Option<StrategyState> {
    if idle_suffices(f) {
        redistribute_spec(f, b, p, l)
    } else {
        withdraw_spec(f, b, p, l)
    }
}

/// The amount inflated by transfer, trade and transfer commissions and the tolerance.
pub open spec fn with_fees(x: int, l: Limits) -> int {
    let one = SCALE as int;
    fx_mul(
        fx_mul(fx_mul(fx_mul(x, one + l.transfer_commission@), one + l.trade_commission@), one + l.transfer_commission@),
        one + l.tolerance@,
    )
}

/// One third of a unit: smaller shortfalls are not worth an unstake.
pub const UNSTAKE_SLACK: i128 = 33_333_333;

/// Direct rebalancing between the two legs, or housekeeping inside the band.
/// `None` when settlement funds sit on the staking venue while in the band.
pub open spec fn rebalance_spec(f: Figures, b: Balances, p: Prices, l: Limits) -> Option<StrategyState> {
    let one = SCALE as int;
    let tol1 = one + l.tolerance@;
    let ee_op = b.ee.operational_coins@;
    let staked = b.e2.staked_coins@;
    let unstaked = b.e2.unstaked_coins@;
    if f.ex_ratio < f.low {
        let delta = prim_to_sec(with_fees(f.e1_lack, l), p.ee.sell@);
        let to_unstake = delta - (unstaked + ee_op);
        if to_unstake < UNSTAKE_SLACK {
            let pre = min_i(delta, unstaked);
            let amount = if unstaked - fx_mul(pre, tol1) < one {
                unstaked
            } else {
                pre
            };
            // Less than a unit is not worth a transfer.
            if amount >= one {
                Some(StrategyState::TransferE2ToEE(sec(amount)))
            } else {
                Some(StrategyState::Monitoring)
            }
        } else {
            let fix0 = max_i(one, to_unstake);
            let fix1 = if staked - fix0 < one {
                staked
            } else {
                fix0
            };
            Some(StrategyState::Unstake(sec(max_i(one, fix1))))
        }
    } else if f.ex_ratio > f.high {
        let delta0 = max_i(f.limit, fx_div(f.e1_total - fx_mul(f.e2_total, f.init), one + f.init));
        Some(StrategyState::TransferE1ToWallet(prim(with_fees(delta0, l))))
    } else if b.e2.transferring_coins@ >= f.limit || b.e2.intermediate_coins@ >= f.limit {
        None
    } else {
        let short_stake_delta = -b.e1.operational_coins@ - (ee_op + staked);
        if unstaked >= one {
            Some(StrategyState::Stake(sec(unstaked)))
        } else if short_stake_delta > one {
            Some(StrategyState::ReduceShort(sec(order_sec_spec(short_stake_delta, p.ee.buy@, l))))
        } else if short_stake_delta < -one {
            Some(StrategyState::EnlargeShort(sec(order_sec_spec(-short_stake_delta, p.ee.sell@, l))))
        } else {
            Some(StrategyState::Monitoring)
        }
    }
}

/// The next corrective action for a snapshot; `None` when the snapshot is one
/// the engine refuses to act on.
pub open spec fn decide_spec(b: Balances, p: Prices, c: StrategyConfig, l: Limits) -> Option<StrategyState> {
    let f = figures(b, p, c, l);
    if f.eew_transferable > f.limit {
        match idle_spec(f, b, p, l) {
            Some(s) => Some(s),
            None => rebalance_spec(f, b, p, l),
        }
    } else {
        rebalance_spec(f, b, p, l)
    }
}

/// Detection succeeds exactly on these snapshots.
pub open spec fn detect_ok(b: Balances, p: Prices, c: StrategyConfig, l: Limits) -> bool {
    &&& c.use_binance_for_exchange
    &&& e2_total_spec(b, p) > 0
    &&& decide_spec(b, p, c, l) is Some
}

fn order_prim(x: PrimaryAsset, l: &Limits) -> (r: PrimaryAsset)
    ensures
        r@ == order_prim_spec(x@, *l),
{
    x.min(l.max_order)
}

fn order_sec(x: SecondaryAsset, price: Value, l: &Limits) -> (r: SecondaryAsset)
    requires
        l.wf(),
        price@ > 0,
    ensures
        r@ == order_sec_spec(x@, price@, *l),
{
    x.min(l.max_order.to_sec(price))
}

fn toward_a(f: &Basis, b: &Balances, p: &Prices, c: &StrategyConfig, l: &Limits) -> (r: Option<StrategyState>)
    requires
        b.wf(),
        p.wf(),
        l.wf(),
        f@ == figures(*b, *p, *c, *l),
        figures_bounded(f@),
    ensures
        r == toward_a_spec(f@, *b, *p, *l),
{
    let one = Value::one();
    let one_s = SecondaryAsset(one);
    let tol1 = one.plus(l.tolerance);
    let wallet = b.wallet.transferring_coins;
    let ee_tr = b.ee.transferring_coins;
    let ee_op = b.ee.operational_coins;
    if f.eew_transferable.lt(f.e1_delta) {
        if l.min_lot.le(ee_op) {
            Some(StrategyState::ReduceSecondaryBoth(order_prim(ee_op.to_prim(p.ee.sell), l)))
        } else if l.min_bridge_transfer.le(ee_tr) {
            Some(StrategyState::TransferEEToWallet(ee_tr))
        } else if f.limit.le(wallet) {
            Some(StrategyState::TransferWalletToE1(wallet))
        } else {
            None
        }
    } else if f.e1_delta.le(wallet) {
        Some(StrategyState::TransferWalletToE1(wallet.min(f.e1_delta_with_tol)))
    } else {
        let to_transfer = l.min_bridge_transfer.max(f.e1_delta_with_tol.minus(wallet));
        let ee_op_prim = ee_op.to_prim(p.ee.sell);
        let one_prim = one_s.to_prim(p.ee.sell);
        let to_exchange = if ee_op_prim.plus(ee_tr).le(to_transfer.times(tol1)) {
            ee_op_prim
        } else {
            to_transfer.minus(ee_tr).max(one_prim)
        };
        if one_prim.lt(to_exchange) {
            // Convert the staked token first.
            Some(StrategyState::ReduceSecondaryBoth(order_prim(to_exchange, l)))
        } else {
            // Everything is converted: send it on, all of it if the rest would be dust.
            let pre = f.e1_delta_with_tol.minus(wallet).max(l.min_bridge_transfer).min(ee_tr);
            let amount = if ee_tr.minus(pre.times(tol1)).lt(one_s.to_prim(p.ee.buy)) {
                ee_tr
            } else {
                pre
            };
            if l.min_bridge_transfer.le(amount) {
                Some(StrategyState::TransferEEToWallet(amount))
            } else {
                None
            }
        }
    }
}

fn toward_b(f: &Basis, b: &Balances, p: &Prices, c: &StrategyConfig, l: &Limits) -> (r: Option<StrategyState>)
    requires
        b.wf(),
        p.wf(),
        l.wf(),
        f@ == figures(*b, *p, *c, *l),
        figures_bounded(f@),
    ensures
        r == toward_b_spec(f@, *b, *p, *l),
{
    let one_s = SecondaryAsset(Value::one());
    let wallet = b.wallet.transferring_coins;
    let ee_tr = b.ee.transferring_coins;
    let ee_op = b.ee.operational_coins;
    if f.ee_total_transferable_to_sec.lt(one_s) {
        None
    } else if f.limit.le(wallet) {
        Some(StrategyState::TransferWalletToEE(wallet))
    } else if one_s.le(ee_tr.to_sec(p.ee.buy)) {
        Some(StrategyState::EnlargeSecondaryBoth(order_prim(ee_tr, l)))
    } else if one_s.le(ee_op) {
        Some(StrategyState::TransferEEToE2(ee_op))
    } else {
        None
    }
}

fn in_band_exec(f: &Basis, r: Value) -> (res: bool)
    ensures
        res == in_band(f@, r@),
{
    f.low.raw <= r.raw && r.raw < f.high.raw
}

fn redistribute(f: &Basis, b: &Balances, p: &Prices, c: &StrategyConfig, l: &Limits) -> (r: Option<StrategyState>)
    requires
        b.wf(),
        p.wf(),
        l.wf(),
        f@ == figures(*b, *p, *c, *l),
        figures_bounded(f@),
        f@.e2_total > 0,
    ensures
        r == redistribute_spec(f@, *b, *p, *l),
{
    // Where the idle funds were headed is read off two guesses at the ratio
    // before they left: one of them in the band tells the direction.
    let if_to_a = f.e1_total.plus(f.ew_total).ratio_to(f.e2_total);
    let if_to_b = f.e1_total.ratio_to(f.e2_total.plus(f.ew_total));
    let in_a = in_band_exec(f, if_to_a);
    let in_b = in_band_exec(f, if_to_b);
    let to_b = (in_a != in_b) && in_b;
    if !to_b && f.limit.le(f.e1_delta) && f.limit.le(f.eew_transferable) {
        toward_a(f, b, p, c, l)
    } else {
        toward_b(f, b, p, c, l)
    }
}

fn withdraw(f: &Basis, b: &Balances, p: &Prices, c: &StrategyConfig, l: &Limits) -> (r: Option<StrategyState>)
    requires
        b.wf(),
        p.wf(),
        l.wf(),
        f@ == figures(*b, *p, *c, *l),
        figures_bounded(f@),
    ensures
        r == withdraw_spec(f@, *b, *p, *l),
{
    let one = Value::one();
    let one_s = SecondaryAsset(one);
    let tol1 = one.plus(l.tolerance);
    let wallet = b.wallet.transferring_coins;
    let ee_tr = b.ee.transferring_coins;
    let ee_op = b.ee.operational_coins;
    let e1_excess = f.e1_lack.negate();
    if f.limit.lt(e1_excess) {
        // Too much on the margin venue; keep its leverage in check after the withdrawal.
        let to_cancel = b.e1.operational_coins.negate().to_prim(p.e1.buy).minus(
            f.e1_total.plus(f.e1_lack).times(l.max_leverage).times(tol1),
        );
        if to_cancel.le(PrimaryAsset::zero()) {
            Some(StrategyState::TransferE1ToWallet(e1_excess))
        } else {
            let least = one_s.times(tol1).to_prim(p.e1.buy);
            Some(StrategyState::ReduceSecondaryBoth(order_prim(to_cancel.max(least), l)))
        }
    } else if f.limit.lt(f.e1_lack) {
        let from_wallet = f.e1_lack.min(wallet).times(tol1);
        if f.limit.negate().le(wallet.minus(f.e1_lack)) && f.limit.le(from_wallet) {
            Some(StrategyState::TransferWalletToE1(from_wallet))
        } else if f.limit.negate().le(f.ee_total.plus(wallet).minus(f.e1_lack)) {
            let ee_delta = f.e1_lack.minus(wallet).times(one.plus(l.transfer_commission)).max(
                l.min_bridge_transfer,
            );
            if ee_delta.le(ee_tr) || ee_op.lt(one_s) {
                let amount = ee_delta.min(ee_tr);
                if l.min_bridge_transfer.le(amount) {
                    Some(StrategyState::TransferEEToWallet(amount))
                } else {
                    None
                }
            } else {
                let to_sell = ee_op.min(ee_delta.minus(ee_tr).to_sec(p.ee.sell));
                Some(StrategyState::ReduceSecondaryBoth(order_prim(to_sell.to_prim(p.ee.sell), l)))
            }
        } else {
            None
        }
    } else {
        None
    }
}

fn idle_move(f: &Basis, b: &Balances, p: &Prices, c: &StrategyConfig, l: &Limits) -> (r: Option<StrategyState>)
    requires
        b.wf(),
        p.wf(),
        l.wf(),
        f@ == figures(*b, *p, *c, *l),
        figures_bounded(f@),
        f@.e2_total > 0,
    ensures
        r == idle_spec(f@, *b, *p, *l),
{
    let ew = f.ew_total;
    if f.expected_e1_low.le(f.e1_total.plus(ew)) && f.expected_e2_low.le(f.e2_total.plus(ew)) {
        redistribute(f, b, p, c, l)
    } else {
        withdraw(f, b, p, c, l)
    }
}

fn with_fees_exec(x: PrimaryAsset, l: &Limits) -> (r: PrimaryAsset)
    requires
        l.wf(),
        within(x@, 1_000_000_000_000_000_000_000_000_000_000_000),
    ensures
        r@ == with_fees(x@, *l),
        within(r@, 16 * mag(x@)),
{
    let one = Value::one();
    let tc1 = one.plus(l.transfer_commission);
    x.times(tc1).times(one.plus(l.trade_commission)).times(tc1).times(one.plus(l.tolerance))
}

fn rebalance(f: &Basis, b: &Balances, p: &Prices, c: &StrategyConfig, l: &Limits) -> (r: Option<StrategyState>)
    requires
        b.wf(),
        p.wf(),
        l.wf(),
        f@ == figures(*b, *p, *c, *l),
        figures_bounded(f@),
    ensures
        r == rebalance_spec(f@, *b, *p, *l),
{
    let one = Value::one();
    let one_s = SecondaryAsset(one);
    let tol1 = one.plus(l.tolerance);
    let ee_op = b.ee.operational_coins;
    let staked = b.e2.staked_coins;
    let unstaked = b.e2.unstaked_coins;
    if f.ex_ratio.raw < f.low.raw {
        // The staking leg is too heavy: bring funds back toward the margin venue.
        let delta = with_fees_exec(f.e1_lack, l).to_sec(p.ee.sell);
        let to_unstake = delta.minus(unstaked.plus(ee_op));
        if to_unstake.0.raw < UNSTAKE_SLACK {
            let pre = delta.min(unstaked);
            let amount = if unstaked.minus(pre.times(tol1)).lt(one_s) {
                unstaked
            } else {
                pre
            };
            if one_s.le(amount) {
                Some(StrategyState::TransferE2ToEE(amount))
            } else {
                Some(StrategyState::Monitoring)
            }
        } else {
            let fix0 = one_s.max(to_unstake);
            let fix1 = if staked.minus(fix0).lt(one_s) {
                staked
            } else {
                fix0
            };
            Some(StrategyState::Unstake(one_s.max(fix1)))
        }
    } else if f.high.raw < f.ex_ratio.raw {
        // The margin leg is too heavy: withdraw; the idle-fund rules route it on.
        let delta0 = f.limit.max(
            f.e1_total.minus(f.e2_total.times(f.init)).div_by(one.plus(f.init)),
        );
        Some(StrategyState::TransferE1ToWallet(with_fees_exec(delta0, l)))
    } else if f.limit.le(b.e2.transferring_coins) || f.limit.le(b.e2.intermediate_coins) {
        None
    } else {
        let short_stake_delta = b.e1.operational_coins.negate().minus(ee_op.plus(staked));
        if one_s.le(unstaked) {
            Some(StrategyState::Stake(unstaked))
        } else if one_s.lt(short_stake_delta) {
            Some(StrategyState::ReduceShort(order_sec(short_stake_delta, p.ee.buy, l)))
        } else if short_stake_delta.lt(one_s.negate()) {
            Some(StrategyState::EnlargeShort(order_sec(short_stake_delta.negate(), p.ee.sell, l)))
        } else {
            Some(StrategyState::Monitoring)
        }
    }
}

/// Chooses the one corrective action for a snapshot.
///
/// `Err` exactly when the bridge venue is not enabled for conversions, when
/// the staking venue holds no value (no ratio exists), or when the ratio is
/// in the band while settlement funds sit on the staking venue.
pub fn detect_state(b: &Balances, p: &Prices, c: &StrategyConfig, l: &Limits) -> (r: Result<Detection, StrategyError>)
    requires
        b.wf(),
        p.wf(),
        c.wf(),
        l.wf(),
    ensures
        r is Ok <==> detect_ok(*b, *p, *c, *l),
        r is Ok ==> Some(r->Ok_0.state) == decide_spec(*b, *p, *c, *l),
        r is Ok ==> totals_spec(r->Ok_0.totals, *b, *p),
{
    if !c.use_binance_for_exchange {
        return Err(StrategyError::misc("conversions need the bridge venue enabled"));
    }
    let totals = match compute_totals(b, p) {
        Ok(t) => t,
        Err(e) => return Err(e),
    };
    let f = compute_basis(b, p, c, l, &totals);
    let idle = if f.limit.lt(f.eew_transferable) {
        idle_move(&f, b, p, c, l)
    } else {
        None
    };
    let chosen = match idle {
        Some(s) => Some(s),
        None => rebalance(&f, b, p, c, l),
    };
    match chosen {
        Some(state) => Ok(Detection { state, totals }),
        None => Err(StrategyError::misc("settlement funds are left on the staking venue")),
    }
}

fn compute_basis(b: &Balances, p: &Prices, c: &StrategyConfig, l: &Limits, t: &Totals) -> (r: Basis)
    requires
        b.wf(),
        p.wf(),
        c.wf(),
        l.wf(),
        totals_spec(*t, *b, *p),
        e2_total_spec(*b, *p) > 0,
        totals_bounded(*t),
    ensures
        r@ == figures(*b, *p, *c, *l),
        figures_bounded(r@),
{
    let one = Value::one();
    let low = percent_to_decimal(c.low_ratio_percent);
    let init = percent_to_decimal(c.initial_ratio_percent);
    let high = percent_to_decimal(c.high_ratio_percent);
    proof {
        crate::fixed::lemma_div_toward_zero_bounds(c.low_ratio_percent@ * SCALE, 100 * SCALE);
        crate::fixed::lemma_div_toward_zero_bounds(c.initial_ratio_percent@ * SCALE, 100 * SCALE);
        crate::fixed::lemma_div_toward_zero_bounds(c.high_ratio_percent@ * SCALE, 100 * SCALE);
        crate::fixed::lemma_div_toward_zero_scaled(c.low_ratio_percent@ * SCALE, 100 * SCALE, 10 * SCALE);
        crate::fixed::lemma_div_toward_zero_scaled(c.initial_ratio_percent@ * SCALE, 100 * SCALE, 10 * SCALE);
        crate::fixed::lemma_div_toward_zero_scaled(c.high_ratio_percent@ * SCALE, 100 * SCALE, 10 * SCALE);
    }
    let wallet = b.wallet.transferring_coins;
    let ee_tr = b.ee.transferring_coins;
    let ee_op = b.ee.operational_coins;
    let ee_total = t.ee;
    let e1_total = t.e1;
    let e2_total = t.e2;
    let total = t.total;
    let ew_total = wallet.plus(ee_total);
    let limit = l.min_withdraw.max(l.min_withdraw_lots.to_prim(p.ee.sell));
    let expected_e1 = total.times(init).div_by(one.plus(init));
    let expected_e1_low = total.times(low).div_by(one.plus(low));
    let expected_e2_low = total.div_by(high.plus(one));
    let e1_lack = expected_e1.minus(e1_total);
    // What the wallet and the bridge venue could send on.
    let ee_prim_transferable = if l.min_bridge_transfer.le(ee_tr) {
        ee_tr.times(one.minus(l.transfer_commission))
    } else {
        PrimaryAsset::zero()
    };
    let ee_exchangable = if l.min_lot.le(ee_op) {
        ee_op.to_prim(p.ee.sell).times(one.minus(l.trade_commission))
    } else {
        PrimaryAsset::zero()
    };
    let ee_pre = ee_prim_transferable.plus(ee_exchangable.times(one.minus(l.transfer_commission)));
    let ee_total_transferable = if l.min_bridge_transfer.le(ee_pre) {
        ee_pre
    } else {
        PrimaryAsset::zero()
    };
    let eew_transferable = wallet.plus(ee_total_transferable);
    // The same, counted in the staked token.
    let wallet_to_sec = if limit.le(wallet) {
        wallet.to_sec(p.ee.buy).times(one.minus(l.trade_commission))
    } else {
        SecondaryAsset::zero()
    };
    let ee_prim_to_sec = ee_tr.to_sec(p.ee.buy).times(one.minus(l.trade_commission));
    let sec_pre = wallet_to_sec.plus(ee_prim_to_sec);
    let sec_exchangable = if SecondaryAsset(one).le(sec_pre) {
        sec_pre
    } else {
        SecondaryAsset::zero()
    };
    let ee_total_transferable_to_sec = sec_exchangable.plus(ee_op);
    let e1_delta = ew_total.min(expected_e1.minus(e1_total));
    let e1_delta_with_tol = e1_delta.times(one.plus(l.tolerance));
    Basis {
        e1_total,
        e2_total,
        ee_total,
        ew_total,
        total,
        low,
        init,
        high,
        limit,
        expected_e1,
        expected_e1_low,
        expected_e2_low,
        e1_lack,
        eew_transferable,
        ee_total_transferable_to_sec,
        e1_delta,
        e1_delta_with_tol,
        ex_ratio: t.extended_ratio,
    }
}

} // verus!
