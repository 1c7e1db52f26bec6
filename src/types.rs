//! Unit-typed quantities, prices and per-venue balance records.
//!
//! `PrimaryAsset` counts the settlement token, `SecondaryAsset` the staked
//! token. Neither converts into the other except through a price.
use crate::fixed::{
    div_toward_zero, div_toward_zero_exec, fx_div, fx_mul, lemma_div_toward_zero_mul_le, mag, within, Value, MAX_PRICE, SCALE,
};
use vstd::prelude::*;

verus! {

/// The largest balance magnitude a snapshot may hold: ten billion units.
pub const MAX_BALANCE: i128 = 1_000_000_000_000_000_000;

pub open spec fn sec_to_prim(a: int, price: int) -> int {
    fx_mul(a, price)
}

pub open spec fn prim_to_sec(a: int, price: int) -> int {
    fx_div(a, price)
}

pub open spec fn price_ok(p: int) -> bool {
    0 < p <= MAX_PRICE
}

pub open spec fn pow10(n: nat) -> int
    decreases n,
{
    if n == 0 {
        1
    } else {
        10 * pow10((n - 1) as nat)
    }
}

/// `a` cut to `digs` decimal places, toward zero; eight or more places keep it whole.
pub open spec fn round_toward_zero(a: int, digs: nat) -> int {
    if digs >= 8 {
        a
    } else {
        let m = pow10((8 - digs) as nat);
        div_toward_zero(a, m) * m
    }
}

proof fn lemma_pow10_positive(n: nat)
    ensures
        pow10(n) >= 1,
    decreases n,
{
    if n > 0 {
        lemma_pow10_positive((n - 1) as nat);
    }
}

/// Truncates a raw value to `digs` decimal places.
fn round_raw(raw: i128, digs: u32) -> (r: i128)
    requires
        raw > i128::MIN,
    ensures
        r == round_toward_zero(raw as int, digs as nat),
{
    if digs >= 8 {
        return raw;
    }
    let m: i128 = match digs {
        0 => 100_000_000,
        1 => 10_000_000,
        2 => 1_000_000,
        3 => 100_000,
        4 => 10_000,
        5 => 1_000,
        6 => 100,
        7 => 10,
        _ => 1,
    };
    proof {
        reveal_with_fuel(pow10, 9);
        assert(m == pow10((8 - digs) as nat));
    }
    proof {
        lemma_pow10_positive((8 - digs) as nat);
    }
    let q = div_toward_zero_exec(raw, m);
    proof {
        lemma_div_toward_zero_mul_le(raw as int, m as int);
        assert(within(q * m, mag(raw as int))) by (nonlinear_arith)
            requires
                m >= 1,
                mag(q as int) * m <= mag(raw as int),
                mag(q as int) == (if q >= 0 { q as int } else { -q }),
        ;
    }
    q * m
}

/// An amount of the settlement (transferring) token.
#[derive(Clone, Copy, Debug, PartialEq, Eq, Structural)]
pub struct PrimaryAsset(pub Value);

/// An amount of the staked (operating) token.
#[derive(Clone, Copy, Debug, PartialEq, Eq, Structural)]
pub struct SecondaryAsset(pub Value);

impl View for PrimaryAsset {
    type V = int;

    open spec fn view(&self) -> int {
        self.0@
    }
}

impl View for SecondaryAsset {
    type V = int;

    open spec fn view(&self) -> int {
        self.0@
    }
}

/// Either kind of amount, tagged.
#[derive(Clone, Copy, Debug, PartialEq, Eq, Structural)]
pub enum Asset {
    Primary(PrimaryAsset),
    Secondary(SecondaryAsset),
}

impl PrimaryAsset {
    /// `n` whole units.
    pub fn from_int(n: i64) -> (r: PrimaryAsset)
        ensures
            r@ == n * SCALE,
    {
        PrimaryAsset(Value::from_int(n))
    }

    pub fn zero() -> (r: PrimaryAsset)
        ensures
            r@ == 0,
    {
        PrimaryAsset(Value::zero())
    }

    pub fn value(self) -> (r: Value)
        ensures
            r@ == self@,
    {
        self.0
    }

    pub fn plus(self, o: PrimaryAsset) -> (r: PrimaryAsset)
        requires
            within(self@ + o@, i128::MAX as int),
        ensures
            r@ == self@ + o@,
    {
        PrimaryAsset(self.0.plus(o.0))
    }

    pub fn minus(self, o: PrimaryAsset) -> (r: PrimaryAsset)
        requires
            within(self@ - o@, i128::MAX as int),
        ensures
            r@ == self@ - o@,
    {
        PrimaryAsset(self.0.minus(o.0))
    }

    pub fn negate(self) -> (r: PrimaryAsset)
        requires
            self.0.raw > i128::MIN,
        ensures
            r@ == -self@,
    {
        PrimaryAsset(self.0.negate())
    }

    /// Scalar product with a non-negative factor of at most ten units.
    pub fn times(self, k: Value) -> (r: PrimaryAsset)
        requires
            within(self@, 10_000_000_000_000_000_000_000_000_000_000_000_000),
            0 <= k@ <= 1_000_000_000,
        ensures
            r@ == fx_mul(self@, k@),
            within(r@, 10 * mag(self@)),
            k@ <= 2 * SCALE ==> within(r@, 2 * mag(self@)),
            k@ <= SCALE ==> within(r@, mag(self@)),
    {
        PrimaryAsset(self.0.times(k))
    }

    /// Scalar quotient by a positive divisor.
    pub fn div_by(self, d: Value) -> (r: PrimaryAsset)
        requires
            within(self@, 1_000_000_000_000_000_000_000_000_000_000),
            d@ > 0,
        ensures
            r@ == fx_div(self@, d@),
            within(r@, mag(self@) * SCALE),
            d@ >= SCALE ==> within(r@, mag(self@)),
    {
        PrimaryAsset(self.0.div_by(d))
    }

    /// The ratio of two primary amounts, a plain number.
    pub fn ratio_to(self, d: PrimaryAsset) -> (r: Value)
        requires
            within(self@, 1_000_000_000_000_000_000_000_000_000_000),
            d@ > 0,
        ensures
            r@ == fx_div(self@, d@),
    {
        self.0.div_by(d.0)
    }

    /// Converts at `price` (primary per secondary unit): `self / price`.
    pub fn to_sec(self, price: Value) -> (r: SecondaryAsset)
        requires
            within(self@, 1_000_000_000_000_000_000_000_000_000_000),
            price@ > 0,
        ensures
            r@ == prim_to_sec(self@, price@),
            within(r@, mag(self@) * SCALE),
    {
        SecondaryAsset(self.0.div_by(price))
    }

    pub fn min(self, o: PrimaryAsset) -> (r: PrimaryAsset)
        ensures
            r@ == if self@ <= o@ { self@ } else { o@ },
    {
        PrimaryAsset(self.0.min(o.0))
    }

    pub fn max(self, o: PrimaryAsset) -> (r: PrimaryAsset)
        ensures
            r@ == if self@ >= o@ { self@ } else { o@ },
    {
        PrimaryAsset(self.0.max(o.0))
    }

    pub fn lt(self, o: PrimaryAsset) -> (r: bool)
        ensures
            r == (self@ < o@),
    {
        self.0.raw < o.0.raw
    }

    pub fn le(self, o: PrimaryAsset) -> (r: bool)
        ensures
            r == (self@ <= o@),
    {
        self.0.raw <= o.0.raw
    }

    /// Truncated toward zero to `digs` decimal places.
    pub fn round(self, digs: u32) -> (r: PrimaryAsset)
        requires
            self.0.raw > i128::MIN,
        ensures
            r@ == round_toward_zero(self@, digs as nat),
    {
        PrimaryAsset(Value::from_raw(round_raw(self.0.raw, digs)))
    }
}

impl SecondaryAsset {
    /// `n` whole units.
    pub fn from_int(n: i64) -> (r: SecondaryAsset)
        ensures
            r@ == n * SCALE,
    {
        SecondaryAsset(Value::from_int(n))
    }

    pub fn zero() -> (r: SecondaryAsset)
        ensures
            r@ == 0,
    {
        SecondaryAsset(Value::zero())
    }

    pub fn value(self) -> (r: Value)
        ensures
            r@ == self@,
    {
        self.0
    }

    pub fn plus(self, o: SecondaryAsset) -> (r: SecondaryAsset)
        requires
            within(self@ + o@, i128::MAX as int),
        ensures
            r@ == self@ + o@,
    {
        SecondaryAsset(self.0.plus(o.0))
    }

    pub fn minus(self, o: SecondaryAsset) -> (r: SecondaryAsset)
        requires
            within(self@ - o@, i128::MAX as int),
        ensures
            r@ == self@ - o@,
    {
        SecondaryAsset(self.0.minus(o.0))
    }

    pub fn negate(self) -> (r: SecondaryAsset)
        requires
            self.0.raw > i128::MIN,
        ensures
            r@ == -self@,
    {
        SecondaryAsset(self.0.negate())
    }

    /// Scalar product with a non-negative factor of at most ten units.
    pub fn times(self, k: Value) -> (r: SecondaryAsset)
        requires
            within(self@, 10_000_000_000_000_000_000_000_000_000_000_000_000),
            0 <= k@ <= 1_000_000_000,
        ensures
            r@ == fx_mul(self@, k@),
            within(r@, 10 * mag(self@)),
            k@ <= 2 * SCALE ==> within(r@, 2 * mag(self@)),
            k@ <= SCALE ==> within(r@, mag(self@)),
    {
        SecondaryAsset(self.0.times(k))
    }

    /// Scalar quotient by a positive divisor.
    pub fn div_by(self, d: Value) -> (r: SecondaryAsset)
        requires
            within(self@, 1_000_000_000_000_000_000_000_000_000_000),
            d@ > 0,
        ensures
            r@ == fx_div(self@, d@),
            within(r@, mag(self@) * SCALE),
            d@ >= SCALE ==> within(r@, mag(self@)),
    {
        SecondaryAsset(self.0.div_by(d))
    }

    /// Converts at `price` (primary per secondary unit): `self * price`.
    pub fn to_prim(self, price: Value) -> (r: PrimaryAsset)
        requires
            within(self@, 1_000_000_000_000_000_000_000_000),
            price_ok(price@),
        ensures
            r@ == sec_to_prim(self@, price@),
            within(r@, 1_000_000 * mag(self@)),
    {
        PrimaryAsset(self.0.times_price(price))
    }

    pub fn min(self, o: SecondaryAsset) -> (r: SecondaryAsset)
        ensures
            r@ == if self@ <= o@ { self@ } else { o@ },
    {
        SecondaryAsset(self.0.min(o.0))
    }

    pub fn max(self, o: SecondaryAsset) -> (r: SecondaryAsset)
        ensures
            r@ == if self@ >= o@ { self@ } else { o@ },
    {
        SecondaryAsset(self.0.max(o.0))
    }

    pub fn lt(self, o: SecondaryAsset) -> (r: bool)
        ensures
            r == (self@ < o@),
    {
        self.0.raw < o.0.raw
    }

    pub fn le(self, o: SecondaryAsset) -> (r: bool)
        ensures
            r == (self@ <= o@),
    {
        self.0.raw <= o.0.raw
    }

    /// Truncated toward zero to `digs` decimal places.
    pub fn round(self, digs: u32) -> (r: SecondaryAsset)
        requires
            self.0.raw > i128::MIN,
        ensures
            r@ == round_toward_zero(self@, digs as nat),
    {
        SecondaryAsset(Value::from_raw(round_raw(self.0.raw, digs)))
    }
}

/// A venue's two one-directional rates, in primary per secondary unit.
#[derive(Clone, Copy, Debug, PartialEq, Eq, Structural)]
pub struct BuySellPrice {
    pub buy: Value,
    pub sell: Value,
}

impl BuySellPrice {
    pub open spec fn wf(&self) -> bool {
        price_ok(self.buy@) && price_ok(self.sell@)
    }
}

pub open spec fn avg_price_spec(price: BuySellPrice) -> int {
    fx_div(price.buy@ + price.sell@, 2 * SCALE)
}

/// The mean of the buy and sell rates.
pub fn avg_price(price: &BuySellPrice) -> (r: Value)
    requires
        price.wf(),
    ensures
        r@ == avg_price_spec(*price),
        price_ok(r@),
{
    let two = Value::from_int(2);
    let r = price.buy.plus(price.sell).div_by(two);
    proof {
        let s = price.buy@ + price.sell@;
        assert(s * SCALE >= 2 * SCALE) by (nonlinear_arith)
            requires
                s >= 2,
        ;
        vstd::arithmetic::div_mod::lemma_div_is_ordered(2 * SCALE, s * SCALE, 2 * SCALE);
        vstd::arithmetic::div_mod::lemma_div_by_multiple(1, 2 * SCALE);
    }
    r
}

/// The venues that hold parts of the position.
#[derive(Clone, Copy, Debug, PartialEq, Eq, Structural)]
pub enum WhichExchange {
    /// The margin venue that holds the short hedge.
    First,
    /// The staking venue.
    Second,
    /// The bridge venue used to convert and relay funds.
    Exchange,
    /// The off-venue custody wallet.
    Wallet,
}

/// Balances on the margin venue.
#[derive(Clone, Copy, Debug, PartialEq, Eq, Structural)]
pub struct E1Balances {
    pub total: PrimaryAsset,
    pub free: PrimaryAsset,
    /// The short position: negative while short.
    pub operational_coins: SecondaryAsset,
}

/// Balances on the staking venue.
#[derive(Clone, Copy, Debug, PartialEq, Eq, Structural)]
pub struct E2Balances {
    pub transferring_coins: PrimaryAsset,
    pub intermediate_coins: PrimaryAsset,
    pub staked_coins: SecondaryAsset,
    pub unstaked_coins: SecondaryAsset,
}

/// Balances on the bridge venue.
#[derive(Clone, Copy, Debug, PartialEq, Eq, Structural)]
pub struct EEBalances {
    pub transferring_coins: PrimaryAsset,
    pub operational_coins: SecondaryAsset,
}

/// Balances in the custody wallet; gas is not part of the position.
#[derive(Clone, Copy, Debug, PartialEq, Eq, Structural)]
pub struct WalletBalances {
    pub transferring_coins: PrimaryAsset,
    pub gas_coins: Value,
}

/// All four balance records, read in one cycle.
#[derive(Clone, Copy, Debug, PartialEq, Eq, Structural)]
pub struct Balances {
    pub e1: E1Balances,
    pub e2: E2Balances,
    pub ee: EEBalances,
    pub wallet: WalletBalances,
}

pub open spec fn balance_ok(x: int) -> bool {
    0 <= x <= MAX_BALANCE
}

impl Balances {
    /// Holdings are non-negative and in range; the short position is signed.
    pub open spec fn wf(&self) -> bool {
        &&& balance_ok(self.e1.total@)
        &&& balance_ok(self.e1.free@)
        &&& within(self.e1.operational_coins@, MAX_BALANCE as int)
        &&& balance_ok(self.e2.transferring_coins@)
        &&& balance_ok(self.e2.intermediate_coins@)
        &&& balance_ok(self.e2.staked_coins@)
        &&& balance_ok(self.e2.unstaked_coins@)
        &&& balance_ok(self.ee.transferring_coins@)
        &&& balance_ok(self.ee.operational_coins@)
        &&& balance_ok(self.wallet.transferring_coins@)
        &&& within(self.wallet.gas_coins@, MAX_BALANCE as int)
    }
}

pub open spec fn free_transferring_spec(b: Balances, we: WhichExchange) -> PrimaryAsset {
    match we {
        WhichExchange::First => b.e1.free,
        WhichExchange::Second => b.e2.transferring_coins,
        WhichExchange::Exchange => b.ee.transferring_coins,
        WhichExchange::Wallet => b.wallet.transferring_coins,
    }
}

/// The settlement-token amount that venue `we` can send right away.
pub fn get_free_transferring_coins(balances: &Balances, we: WhichExchange) -> (r: PrimaryAsset)
    ensures
        r == free_transferring_spec(*balances, we),
{
    match we {
        WhichExchange::First => balances.e1.free,
        WhichExchange::Second => balances.e2.transferring_coins,
        WhichExchange::Exchange => balances.ee.transferring_coins,
        WhichExchange::Wallet => balances.wallet.transferring_coins,
    }
}

/// An error that ends the current cycle.
#[derive(Clone, Debug, PartialEq, Eq)]
pub enum StrategyError {
    Misc { msg: String },
}

impl StrategyError {
    pub open spec fn msg_spec(&self) -> Seq<char> {
        match self {
            StrategyError::Misc { msg } => msg@,
        }
    }

    pub fn misc(msg: &str) -> (r: StrategyError)
        ensures
            r.msg_spec() == msg@,
    {
        StrategyError::Misc { msg: String::from_str(msg) }
    }

    /// The error's text.
    pub fn to_string(&self) -> (r: String)
        ensures
            r@ == self.msg_spec(),
    {
        match self {
            StrategyError::Misc { msg } => msg.clone(),
        }
    }
}

} // verus!
