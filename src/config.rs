//! Process configuration, as read once at start-up.
use crate::fixed::{Value, SCALE};
use crate::types::{balance_ok, PrimaryAsset, SecondaryAsset};
use vstd::prelude::*;

verus! {

/// Largest ratio percentage the decision arithmetic accepts (a ratio of ten).
pub const MAX_RATIO_PERCENT: i128 = 1_000 * SCALE;

#[derive(Clone, Debug)]
pub struct Config {
    pub kraken: KrakenConfig,
    pub dydx: DydxConfig,
    pub binance: BinanceConfig,
    pub wallet: WalletConfig,
    pub strategy: StrategyConfig,
    pub notifications: NotificationsConfig,
}

#[derive(Clone, Debug)]
pub struct KrakenConfig {
    pub key: String,
    pub secret: String,
    pub withdrawal_key: String,
    pub atom_withdrawal_key: String,
    pub usdc_account: String,
    pub atom_account: String,
}

#[derive(Clone, Debug)]
pub struct DydxConfig {
    pub key: String,
    pub secret: String,
    pub passphrase: String,
    pub stark_private_key: String,
}

#[derive(Clone, Debug)]
pub struct BinanceConfig {
    pub usdc_account: String,
    pub trading_key: String,
    pub trading_secret: String,
    pub funding_key: String,
    pub funding_secret: String,
}

#[derive(Clone, Debug)]
pub struct WalletConfig {
    pub key: String,
    pub secret: String,
}

#[derive(Clone, Copy, Debug, PartialEq, Eq, Structural)]
pub struct StrategyConfig {
    pub initial_ratio_percent: Value,
    pub low_ratio_percent: Value,
    pub high_ratio_percent: Value,
    pub max_order_usdc: Value,
    pub max_order_std_dev_usdc: Value,
    pub max_slippage_usdc_1: Value,
    pub order_timeout: i64,
    pub keypress_to_continue: bool,
    pub monitoring_timeout: u64,
    pub operations_timeout: u64,
    pub use_binance_for_exchange: bool,
    pub panics_to_log: bool,
}

#[derive(Clone, Debug)]
pub struct NotificationsConfig {
    pub telegram_enabled: bool,
    pub logs_telegram_token: String,
    pub logs_telegram_chat_id: i64,
    pub alerts_telegram_token: String,
    pub alerts_telegram_chat_id: i64,
}

pub open spec fn percent_ok(p: int) -> bool {
    0 <= p <= MAX_RATIO_PERCENT
}

/// The ordering of the ratio bounds that start-up insists on.
pub open spec fn ratio_bounds_consistent(c: StrategyConfig) -> bool {
    &&& c.initial_ratio_percent@ <= 100 * SCALE
    &&& c.high_ratio_percent@ <= 100 * SCALE
    &&& c.low_ratio_percent@ <= c.high_ratio_percent@
    &&& c.low_ratio_percent@ <= c.initial_ratio_percent@
    &&& c.initial_ratio_percent@ <= c.high_ratio_percent@
}

impl StrategyConfig {
    /// Ratio percentages and the order cap are in the range the arithmetic accepts.
    pub open spec fn wf(&self) -> bool {
        &&& percent_ok(self.initial_ratio_percent@)
        &&& percent_ok(self.low_ratio_percent@)
        &&& percent_ok(self.high_ratio_percent@)
        &&& balance_ok(self.max_order_usdc@)
    }

    /// Start-up validation: `Err` exactly when the ratio bounds are out of order
    /// or a bound exceeds one hundred percent.
    pub fn check_ratio_bounds(&self) -> (r: Result<(), crate::types::StrategyError>)
        ensures
            r is Ok <==> ratio_bounds_consistent(*self),
    {
        let hundred = 100 * SCALE;
        if self.initial_ratio_percent.raw > hundred {
            Err(crate::types::StrategyError::misc("initial ratio exceeds 100%"))
        } else if self.high_ratio_percent.raw > hundred {
            Err(crate::types::StrategyError::misc("high ratio exceeds 100%"))
        } else if self.low_ratio_percent.raw > self.high_ratio_percent.raw {
            Err(crate::types::StrategyError::misc("low ratio exceeds high ratio"))
        } else if self.low_ratio_percent.raw > self.initial_ratio_percent.raw {
            Err(crate::types::StrategyError::misc("low ratio exceeds initial ratio"))
        } else if self.initial_ratio_percent.raw > self.high_ratio_percent.raw {
            Err(crate::types::StrategyError::misc("initial ratio exceeds high ratio"))
        } else {
            Ok(())
        }
    }
}

/// Operational limits and fee assumptions of the decision engine.
#[derive(Clone, Copy, Debug, PartialEq, Eq, Structural)]
pub struct Limits {
    /// Expected commission of one transfer, as a fraction.
    pub transfer_commission: Value,
    /// Expected commission of one trade, as a fraction.
    pub trade_commission: Value,
    /// Safety margin against price drift during a multi-step transfer, as a fraction.
    pub tolerance: Value,
    /// Smallest worthwhile withdrawal, in the settlement token.
    pub min_withdraw: PrimaryAsset,
    /// Smallest worthwhile withdrawal, in staked-token lots.
    pub min_withdraw_lots: SecondaryAsset,
    /// Smallest amount the bridge venue transfers.
    pub min_bridge_transfer: PrimaryAsset,
    /// Smallest tradable lot of the staked token.
    pub min_lot: SecondaryAsset,
    /// Leverage the margin venue is kept under after a withdrawal.
    pub max_leverage: Value,
    /// Largest single order, in the settlement token.
    pub max_order: PrimaryAsset,
}

pub open spec fn fraction_ok(x: int) -> bool {
    0 <= x <= SCALE
}

impl Limits {
    pub open spec fn wf(&self) -> bool {
        &&& fraction_ok(self.transfer_commission@)
        &&& fraction_ok(self.trade_commission@)
        &&& fraction_ok(self.tolerance@)
        &&& balance_ok(self.min_withdraw@) && self.min_withdraw@ > 0
        &&& balance_ok(self.min_withdraw_lots@)
        &&& balance_ok(self.min_bridge_transfer@)
        &&& balance_ok(self.min_lot@)
        &&& 0 <= self.max_leverage@ <= 10 * SCALE
        &&& balance_ok(self.max_order@)
    }

    /// Whether the limits are in the range the decision arithmetic accepts.
    pub fn is_valid(&self) -> (r: bool)
        ensures
            r == self.wf(),
    {
        let one = SCALE;
        let fraction = |x: Value| -> (b: bool)
            ensures
                b == fraction_ok(x@),
            { 0 <= x.raw && x.raw <= one };
        let amount = |x: Value| -> (b: bool)
            ensures
                b == balance_ok(x@),
            { 0 <= x.raw && x.raw <= crate::types::MAX_BALANCE };
        fraction(self.transfer_commission) && fraction(self.trade_commission) && fraction(
            self.tolerance,
        ) && amount(self.min_withdraw.0) && self.min_withdraw.0.raw > 0 && amount(
            self.min_withdraw_lots.0,
        ) && amount(self.min_bridge_transfer.0) && amount(self.min_lot.0) && 0
            <= self.max_leverage.raw && self.max_leverage.raw <= 10 * SCALE && amount(
            self.max_order.0,
        )
    }

    /// The usual limits, with the order cap taken from the configuration.
    pub fn standard(cfg: &StrategyConfig) -> (r: Limits)
        requires
            balance_ok(cfg.max_order_usdc@),
        ensures
            r.wf(),
            r.transfer_commission@ == 500_000,
            r.trade_commission@ == 500_000,
            r.tolerance@ == 10_000_000,
            r.min_withdraw@ == 50 * SCALE,
            r.min_withdraw_lots@ == 2 * SCALE,
            r.min_bridge_transfer@ == 50 * SCALE,
            r.min_lot@ == SCALE,
            r.max_leverage@ == 8 * SCALE,
            r.max_order@ == cfg.max_order_usdc@,
    {
        Limits {
            transfer_commission: Value::from_raw(500_000),
            trade_commission: Value::from_raw(500_000),
            tolerance: Value::from_raw(10_000_000),
            min_withdraw: PrimaryAsset::from_int(50),
            min_withdraw_lots: SecondaryAsset::from_int(2),
            min_bridge_transfer: PrimaryAsset::from_int(50),
            min_lot: SecondaryAsset::from_int(1),
            max_leverage: Value::from_int(8),
            max_order: PrimaryAsset(cfg.max_order_usdc),
        }
    }
}

} // verus!
