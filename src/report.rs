//! The human-readable status text sent once per cycle.
use crate::config::StrategyConfig;
use crate::consts::{E1_NAME, E2_NAME, EE_NAME, GAS_COIN, OPERATING_COIN, TRANSFERRING_COIN, WALLET_NAME};
use crate::fixed::{fx_div, lemma_fx_div_bound, lemma_fx_mul_bound, mag, within, Value, SCALE};
use crate::strategy::{
    state_message_spec, totals_spec, Detection, Prices,
    StrategyState, Totals,
};
use crate::types::{avg_price, avg_price_spec, Balances, PrimaryAsset, SecondaryAsset};
use crate::utils::{percent_to_decimal, percent_to_ratio};
use vstd::prelude::*;

verus! {

/// The largest magnitude the decimal formatter takes (96 bits).
pub const MAX_TEXT_RAW: i128 = 79_228_162_514_264_337_593_543_950_335;

/// What the decimal formatter prints for `raw` hundred-millionths with `dp`
/// decimal places.
pub uninterp spec fn decimal_text(raw: int, dp: int) -> Seq<char>;

/// The most decimal places the formatter is asked for.
pub const MAX_TEXT_DP: usize = 10;

/// Relies on rust_decimal's `Display` with a precision: the printed text
/// depends on the number and the precision alone. `from_i128_with_scale`
/// panics beyond 96 bits, and `Display` writes into a 32-character buffer
/// that panics when full; `requires` rules out both: at most 21 whole-number
/// digits, the point and at most 10 decimals always fit.
#[verifier::external_body]
fn decimal_text_exec(v: Value, dp: usize) -> (r: String)
    requires
        within(v@, MAX_TEXT_RAW as int),
        dp <= MAX_TEXT_DP,
    ensures
        r@ == decimal_text(v@, dp as int),
{
    format!("{:.*}", dp, rust_decimal::Decimal::from_i128_with_scale(v.raw, 8))
}

pub open spec fn prim_text(x: int, dp: int) -> Seq<char> {
    decimal_text(x, dp) + " "@ + TRANSFERRING_COIN@
}

pub open spec fn sec_text(x: int, dp: int) -> Seq<char> {
    decimal_text(x, dp) + " "@ + OPERATING_COIN@
}

impl PrimaryAsset {
    /// The amount with `dp` decimal places and the token's name.
    pub fn to_text(&self, dp: usize) -> (r: String)
        requires
            within(self@, MAX_TEXT_RAW as int),
            dp <= MAX_TEXT_DP,
        ensures
            r@ == prim_text(self@, dp as int),
    {
        let mut r = decimal_text_exec(self.0, dp);
        r.append(" ");
        r.append(TRANSFERRING_COIN);
        r
    }
}

impl SecondaryAsset {
    /// The amount with `dp` decimal places and the token's name.
    pub fn to_text(&self, dp: usize) -> (r: String)
        requires
            within(self@, MAX_TEXT_RAW as int),
            dp <= MAX_TEXT_DP,
        ensures
            r@ == sec_text(self@, dp as int),
    {
        let mut r = decimal_text_exec(self.0, dp);
        r.append(" ");
        r.append(OPERATING_COIN);
        r
    }
}

pub open spec fn ratio_line_spec(r: int, low: int, high: int) -> Seq<char> {
    let rt = decimal_text(r, 4);
    let lt = decimal_text(low, 4);
    let ht = decimal_text(high, 4);
    if r < low {
        rt + " ("@ + rt + " < "@ + lt + "~"@ + ht + ")"@
    } else if r > high {
        rt + " ("@ + lt + "~"@ + ht + " > "@ + rt + ")"@
    } else {
        lt + " < "@ + rt + " < "@ + ht
    }
}

/// The mean of the three venues' average prices.
pub open spec fn mean_price_spec(p: Prices) -> int {
    fx_div(avg_price_spec(p.e1) + avg_price_spec(p.ee) + avg_price_spec(p.e2), 3 * SCALE)
}

pub open spec fn holdings_spec(t: Totals, b: Balances) -> Seq<char> {
    "Total: "@ + prim_text(t.total@, 2) + "\n"@ + E1_NAME@ + ": "@ + prim_text(t.e1@, 2) + " (incl. "@
        + sec_text(-b.e1.operational_coins@, 2) + "),\n"@ + E2_NAME@ + ": "@ + prim_text(t.e2@, 2)
        + " (incl. "@ + sec_text(b.e2.staked_coins@ + b.e2.unstaked_coins@, 2) + ")\n"@ + EE_NAME@
        + ": "@ + prim_text(t.ee@, 2) + " (incl. "@ + sec_text(b.ee.operational_coins@, 2) + ")\n"@
        + WALLET_NAME@ + ": "@ + prim_text(t.wallet@, 2) + " (gas: "@ + decimal_text(
        b.wallet.gas_coins@,
        6,
    ) + " "@ + GAS_COIN@ + ")\n\n"@
}

pub open spec fn price_line_spec(p: Prices) -> Seq<char> {
    "Price: "@ + decimal_text(mean_price_spec(p), 4) + " "@ + OPERATING_COIN@ + "/"@ + TRANSFERRING_COIN@
}

pub open spec fn status_spec(d: Detection, b: Balances, p: Prices, c: StrategyConfig, monitoring_only: bool) -> Seq<char> {
    let body = "Ratio: "@ + ratio_line_spec(
        d.totals.ratio@,
        percent_to_ratio(c.low_ratio_percent@),
        percent_to_ratio(c.high_ratio_percent@),
    ) + "\n\n"@ + (if monitoring_only {
        "(only monitoring)\n"@
    } else {
        Seq::empty()
    }) + holdings_spec(d.totals, b) + price_line_spec(p);
    if d.state == StrategyState::Monitoring {
        body
    } else {
        body + "\n\n"@ + state_message_spec(d.state)
    }
}

fn push_prim(r: &mut String, x: PrimaryAsset)
    requires
        within(x@, MAX_TEXT_RAW as int),
    ensures
        final(r)@ == old(r)@ + prim_text(x@, 2),
{
    let t = x.to_text(2);
    r.append(t.as_str());
}

fn push_sec(r: &mut String, x: SecondaryAsset)
    requires
        within(x@, MAX_TEXT_RAW as int),
    ensures
        final(r)@ == old(r)@ + sec_text(x@, 2),
{
    let t = x.to_text(2);
    r.append(t.as_str());
}

fn push_decimal(r: &mut String, x: Value, dp: usize)
    requires
        within(x@, MAX_TEXT_RAW as int),
        dp <= MAX_TEXT_DP,
    ensures
        final(r)@ == old(r)@ + decimal_text(x@, dp as int),
{
    let t = decimal_text_exec(x, dp);
    r.append(t.as_str());
}

fn ratio_line(ratio: Value, low: Value, high: Value) -> (r: String)
    requires
        within(ratio@, MAX_TEXT_RAW as int),
        within(low@, MAX_TEXT_RAW as int),
        within(high@, MAX_TEXT_RAW as int),
    ensures
        r@ == ratio_line_spec(ratio@, low@, high@),
{
    let mut r = String::new();
    if ratio.raw < low.raw {
        push_decimal(&mut r, ratio, 4);
        r.append(" (");
        push_decimal(&mut r, ratio, 4);
        r.append(" < ");
        push_decimal(&mut r, low, 4);
        r.append("~");
        push_decimal(&mut r, high, 4);
        r.append(")");
    } else if ratio.raw > high.raw {
        push_decimal(&mut r, ratio, 4);
        r.append(" (");
        push_decimal(&mut r, low, 4);
        r.append("~");
        push_decimal(&mut r, high, 4);
        r.append(" > ");
        push_decimal(&mut r, ratio, 4);
        r.append(")");
    } else {
        push_decimal(&mut r, low, 4);
        r.append(" < ");
        push_decimal(&mut r, ratio, 4);
        r.append(" < ");
        push_decimal(&mut r, high, 4);
    }
    proof {
        assert(r@ =~= ratio_line_spec(ratio@, low@, high@));
    }
    r
}

fn holdings(t: &Totals, b: &Balances) -> (r: String)
    requires
        b.wf(),
        within(t.total@, MAX_TEXT_RAW as int),
        within(t.e1@, MAX_TEXT_RAW as int),
        within(t.e2@, MAX_TEXT_RAW as int),
        within(t.ee@, MAX_TEXT_RAW as int),
        within(t.wallet@, MAX_TEXT_RAW as int),
    ensures
        r@ == holdings_spec(*t, *b),
{
    let mut r = String::from_str("Total: ");
    push_prim(&mut r, t.total);
    r.append("\n");
    r.append(E1_NAME);
    r.append(": ");
    push_prim(&mut r, t.e1);
    r.append(" (incl. ");
    push_sec(&mut r, b.e1.operational_coins.negate());
    r.append("),\n");
    r.append(E2_NAME);
    r.append(": ");
    push_prim(&mut r, t.e2);
    r.append(" (incl. ");
    push_sec(&mut r, b.e2.staked_coins.plus(b.e2.unstaked_coins));
    r.append(")\n");
    r.append(EE_NAME);
    r.append(": ");
    push_prim(&mut r, t.ee);
    r.append(" (incl. ");
    push_sec(&mut r, b.ee.operational_coins);
    r.append(")\n");
    r.append(WALLET_NAME);
    r.append(": ");
    push_prim(&mut r, t.wallet);
    r.append(" (gas: ");
    push_decimal(&mut r, b.wallet.gas_coins, 6);
    r.append(" ");
    r.append(GAS_COIN);
    r.append(")\n\n");
    r
}

fn price_line(p: &Prices) -> (r: String)
    requires
        p.wf(),
    ensures
        r@ == price_line_spec(*p),
{
    let price = avg_price(&p.e1).plus(avg_price(&p.ee)).plus(avg_price(&p.e2)).div_by(Value::from_int(3));
    let mut r = String::from_str("Price: ");
    push_decimal(&mut r, price, 4);
    r.append(" ");
    r.append(OPERATING_COIN);
    r.append("/");
    r.append(TRANSFERRING_COIN);
    r
}

/// The status text for one cycle: the ratio against its band, each venue's
/// value and holdings, the mean price, and the chosen action unless it is
/// plain monitoring.
pub fn status_message(d: &Detection, b: &Balances, p: &Prices, c: &StrategyConfig, monitoring_only: bool) -> (r: String)
    requires
        b.wf(),
        p.wf(),
        c.wf(),
        totals_spec(d.totals, *b, *p),
        d.totals.e2@ > 0,
    ensures
        r@ == status_spec(*d, *b, *p, *c, monitoring_only),
{
    let t = d.totals;
    proof {
        lemma_fx_mul_bound(b.e2.staked_coins@ + b.e2.unstaked_coins@, p.e2.sell@, 1_000_000);
        lemma_fx_mul_bound(b.ee.operational_coins@, p.e2.sell@, 1_000_000);
        lemma_fx_div_bound(t.e1@, t.e2@);
        assert(mag(t.e1@) * SCALE <= 100_000_000_000_000_000_000_000_000) by (nonlinear_arith)
            requires
                0 <= t.e1@ <= 1_000_000_000_000_000_000,
                mag(t.e1@) == t.e1@,
        ;
    }
    let low = percent_to_decimal(c.low_ratio_percent);
    let high = percent_to_decimal(c.high_ratio_percent);
    let mut r = String::from_str("Ratio: ");
    let line = ratio_line(t.ratio, low, high);
    r.append(line.as_str());
    r.append("\n\n");
    let ghost head = r@;
    if monitoring_only {
        r.append("(only monitoring)\n");
    }
    proof {
        assert(r@ =~= head + (if monitoring_only {
            "(only monitoring)\n"@
        } else {
            Seq::empty()
        }));
    }
    let h = holdings(&t, b);
    r.append(h.as_str());
    let pl = price_line(p);
    r.append(pl.as_str());
    if d.state != StrategyState::Monitoring {
        r.append("\n\n");
        r.append(d.state.get_message());
    }
    r
}

} // verus!
