//! From a chosen state to the one venue operation that carries it out.
use crate::consts::same_text;
use crate::fixed::{fx_mul, within, Value, SCALE};
use crate::strategy::{max_i, min_i, StrategyState};
use crate::types::{
    prim_to_sec, sec_to_prim, Balances, BuySellPrice, PrimaryAsset, SecondaryAsset,
    StrategyError, MAX_BALANCE,
};
use vstd::prelude::*;

verus! {

/// One venue-level operation with its amount.
#[derive(Clone, Copy, Debug, PartialEq, Eq, Structural)]
pub enum Command {
    /// Withdraw from the margin venue to the wallet.
    E1ToWallet(PrimaryAsset),
    /// Sell the staked token on the bridge venue and close short on the margin
    /// venue; with no amount, as much as both sides allow.
    ReduceSecondarySoft(Option<PrimaryAsset>),
    /// Buy the staked token on the bridge venue and open short on the margin
    /// venue; with no amount, for all of the bridge venue's settlement token.
    EnlargeSecondarySoft(Option<PrimaryAsset>),
    WalletToEE(PrimaryAsset),
    EEToE2(SecondaryAsset),
    Stake(SecondaryAsset),
    /// Change the short position: positive enlarges, negative reduces.
    ChangeShort(SecondaryAsset),
    Unstake(SecondaryAsset),
    E2ToEE(SecondaryAsset),
    EEToWallet(PrimaryAsset),
    WalletToE1(PrimaryAsset),
}

pub open spec fn command_spec(s: StrategyState) -> Option<Command> {
    match s {
        StrategyState::Monitoring => None,
        StrategyState::TransferE1ToWallet(v) => Some(Command::E1ToWallet(v)),
        StrategyState::ReduceSecondaryBoth(v) => Some(Command::ReduceSecondarySoft(Some(v))),
        StrategyState::EnlargeSecondaryBoth(v) => Some(Command::EnlargeSecondarySoft(Some(v))),
        StrategyState::TransferWalletToEE(v) => Some(Command::WalletToEE(v)),
        StrategyState::TransferEEToE2(v) => Some(Command::EEToE2(v)),
        StrategyState::Stake(v) => Some(Command::Stake(v)),
        StrategyState::ReduceShort(v) => Some(
            Command::ChangeShort(SecondaryAsset(Value { raw: (-v@) as i128 })),
        ),
        StrategyState::EnlargeShort(v) => Some(Command::ChangeShort(v)),
        StrategyState::Unstake(v) => Some(Command::Unstake(v)),
        StrategyState::TransferE2ToEE(v) => Some(Command::E2ToEE(v)),
        StrategyState::TransferEEToWallet(v) => Some(Command::EEToWallet(v)),
        StrategyState::TransferWalletToE1(v) => Some(Command::WalletToE1(v)),
    }
}

/// The operation for a state; monitoring has none.
pub fn command_for(s: StrategyState) -> (r: Option<Command>)
    requires
        s is ReduceShort ==> s->ReduceShort_0.0.raw > i128::MIN,
    ensures
        r == command_spec(s),
{
    match s {
        StrategyState::Monitoring => None,
        StrategyState::TransferE1ToWallet(v) => Some(Command::E1ToWallet(v)),
        StrategyState::ReduceSecondaryBoth(v) => Some(Command::ReduceSecondarySoft(Some(v))),
        StrategyState::EnlargeSecondaryBoth(v) => Some(Command::EnlargeSecondarySoft(Some(v))),
        StrategyState::TransferWalletToEE(v) => Some(Command::WalletToEE(v)),
        StrategyState::TransferEEToE2(v) => Some(Command::EEToE2(v)),
        StrategyState::Stake(v) => Some(Command::Stake(v)),
        StrategyState::ReduceShort(v) => Some(Command::ChangeShort(v.negate())),
        StrategyState::EnlargeShort(v) => Some(Command::ChangeShort(v)),
        StrategyState::Unstake(v) => Some(Command::Unstake(v)),
        StrategyState::TransferE2ToEE(v) => Some(Command::E2ToEE(v)),
        StrategyState::TransferEEToWallet(v) => Some(Command::EEToWallet(v)),
        StrategyState::TransferWalletToE1(v) => Some(Command::WalletToE1(v)),
    }
}

/// What one cycle does: at most one operation, then an optional wait (in
/// seconds) before the next cycle, which always detects afresh.
#[derive(Clone, Copy, Debug, PartialEq, Eq, Structural)]
pub struct CyclePlan {
    pub command: Option<Command>,
    pub delay_secs: Option<u64>,
}

/// One step of the control loop for the state at hand. In monitoring-only mode
/// nothing is executed. Monitoring waits for the monitoring interval, unless
/// the operator steps through cycles by key press; an action runs and the next
/// cycle starts at once.
pub fn plan_cycle(state: StrategyState, is_monitoring_only: bool, keypress_to_continue: bool, monitoring_timeout: u64) -> (r: CyclePlan)
    requires
        state is ReduceShort ==> state->ReduceShort_0.0.raw > i128::MIN,
    ensures
        is_monitoring_only || state == StrategyState::Monitoring ==> r.command is None && r.delay_secs == (
        if keypress_to_continue {
            None::<u64>
        } else {
            Some(monitoring_timeout)
        }),
        !(is_monitoring_only || state == StrategyState::Monitoring) ==> r.command == command_spec(state)
            && r.delay_secs is None,
{
    if is_monitoring_only || state == StrategyState::Monitoring {
        CyclePlan {
            command: None,
            delay_secs: if keypress_to_continue {
                None
            } else {
                Some(monitoring_timeout)
            },
        }
    } else {
        CyclePlan { command: command_for(state), delay_secs: None }
    }
}

/// Amounts an operator or the engine may hand to an operation.
pub open spec fn amount_ok(x: int) -> bool {
    within(x, MAX_BALANCE as int)
}

/// The margin venue's wallet deposit: a requested amount is sent as asked when
/// the wallet holds more than 110% of it, all of the wallet when it holds
/// between 90% and 110%, and refused below 90%; with no request, all of it.
pub open spec fn wallet_to_e1_spec(opt: Option<PrimaryAsset>, wallet: int) -> Option<int> {
    match opt {
        None => Some(wallet),
        Some(a) => if wallet < fx_mul(a@, 90_000_000) {
            None
        } else if wallet > fx_mul(a@, 110_000_000) {
            Some(a@)
        } else {
            Some(wallet)
        },
    }
}

pub fn wallet_to_e1_amount(opt_amount: Option<PrimaryAsset>, b: &Balances) -> (r: Result<PrimaryAsset, StrategyError>)
    requires
        b.wf(),
        opt_amount is Some ==> amount_ok(opt_amount->Some_0@),
    ensures
        r is Ok <==> wallet_to_e1_spec(opt_amount, b.wallet.transferring_coins@) is Some,
        r is Ok ==> Some(r->Ok_0@) == wallet_to_e1_spec(opt_amount, b.wallet.transferring_coins@),
{
    let wallet = b.wallet.transferring_coins;
    match opt_amount {
        None => Ok(wallet),
        Some(amount) => {
            let lowest = amount.times(Value::from_raw(90_000_000));
            let highest = amount.times(Value::from_raw(110_000_000));
            if wallet.lt(lowest) {
                Err(StrategyError::misc("too few transferring coins in the wallet"))
            } else if highest.lt(wallet) {
                Ok(amount)
            } else {
                Ok(wallet)
            }
        },
    }
}

/// Sign-directed change of the short position.
#[derive(Clone, Copy, Debug, PartialEq, Eq, Structural)]
pub enum ShortChange {
    Enlarge(SecondaryAsset),
    Reduce(SecondaryAsset),
}

/// With no amount given, the short is trued up to the staked balance plus the
/// bridge venue's staked-token balance.
pub open spec fn short_delta_spec(opt: Option<SecondaryAsset>, b: Balances) -> int {
    match opt {
        Some(v) => v@,
        None => -b.e1.operational_coins@ - (b.e2.staked_coins@ + b.ee.operational_coins@),
    }
}

pub fn change_short_plan(opt_amount: Option<SecondaryAsset>, b: &Balances) -> (r: ShortChange)
    requires
        b.wf(),
        opt_amount is Some ==> amount_ok(opt_amount->Some_0@),
    ensures
        short_delta_spec(opt_amount, *b) > 0 ==> r == ShortChange::Enlarge(
            SecondaryAsset(Value { raw: short_delta_spec(opt_amount, *b) as i128 }),
        ),
        short_delta_spec(opt_amount, *b) <= 0 ==> r == ShortChange::Reduce(
            SecondaryAsset(Value { raw: (-short_delta_spec(opt_amount, *b)) as i128 }),
        ),
{
    let amount = match opt_amount {
        Some(v) => v,
        None => b.e1.operational_coins.negate().minus(b.e2.staked_coins.plus(b.ee.operational_coins)),
    };
    if amount.0.raw > 0 {
        ShortChange::Enlarge(amount)
    } else {
        ShortChange::Reduce(amount.negate())
    }
}

/// The simple transfers, stake and unstake, each with its default amount.
#[derive(Clone, Copy, Debug, PartialEq, Eq, Structural)]
pub enum ActionName {
    ChangeShort,
    DebugShowBalances,
    DebugShowState,
    E1ToWallet,
    E2ToEE,
    EEToE2,
    EEToWallet,
    Stake,
    Unstake,
    WalletToE1,
    WalletToEE,
    ReduceSecondarySoft,
    EnlargeSecondarySoft,
}

pub open spec fn action_name_spec(name: Seq<char>) -> Option<ActionName> {
    if name == "do_change_short"@ {
        Some(ActionName::ChangeShort)
    } else if name == "do_debug_show_balances"@ {
        Some(ActionName::DebugShowBalances)
    } else if name == "do_debug_show_state"@ {
        Some(ActionName::DebugShowState)
    } else if name == "do_e1_to_wallet"@ {
        Some(ActionName::E1ToWallet)
    } else if name == "do_e2_to_ee"@ {
        Some(ActionName::E2ToEE)
    } else if name == "do_ee_to_e2"@ {
        Some(ActionName::EEToE2)
    } else if name == "do_ee_to_wallet"@ {
        Some(ActionName::EEToWallet)
    } else if name == "do_stake"@ {
        Some(ActionName::Stake)
    } else if name == "do_unstake"@ {
        Some(ActionName::Unstake)
    } else if name == "do_wallet_to_e1"@ {
        Some(ActionName::WalletToE1)
    } else if name == "do_wallet_to_ee"@ {
        Some(ActionName::WalletToEE)
    } else if name == "do_reduce_secondary_soft"@ {
        Some(ActionName::ReduceSecondarySoft)
    } else if name == "do_enlarge_secondary_soft"@ {
        Some(ActionName::EnlargeSecondarySoft)
    } else {
        None
    }
}

/// The action an operator named, or `Err` naming the unknown name.
pub fn parse_action_name(name: &str) -> (r: Result<ActionName, StrategyError>)
    ensures
        r is Ok <==> action_name_spec(name@) is Some,
        r is Ok ==> Some(r->Ok_0) == action_name_spec(name@),
        r is Err ==> r->Err_0.msg_spec() == "No such action \""@ + name@ + "\""@,
{
    if same_text(name, "do_change_short") {
        Ok(ActionName::ChangeShort)
    } else if same_text(name, "do_debug_show_balances") {
        Ok(ActionName::DebugShowBalances)
    } else if same_text(name, "do_debug_show_state") {
        Ok(ActionName::DebugShowState)
    } else if same_text(name, "do_e1_to_wallet") {
        Ok(ActionName::E1ToWallet)
    } else if same_text(name, "do_e2_to_ee") {
        Ok(ActionName::E2ToEE)
    } else if same_text(name, "do_ee_to_e2") {
        Ok(ActionName::EEToE2)
    } else if same_text(name, "do_ee_to_wallet") {
        Ok(ActionName::EEToWallet)
    } else if same_text(name, "do_stake") {
        Ok(ActionName::Stake)
    } else if same_text(name, "do_unstake") {
        Ok(ActionName::Unstake)
    } else if same_text(name, "do_wallet_to_e1") {
        Ok(ActionName::WalletToE1)
    } else if same_text(name, "do_wallet_to_ee") {
        Ok(ActionName::WalletToEE)
    } else if same_text(name, "do_reduce_secondary_soft") {
        Ok(ActionName::ReduceSecondarySoft)
    } else if same_text(name, "do_enlarge_secondary_soft") {
        Ok(ActionName::EnlargeSecondarySoft)
    } else {
        let mut msg = String::from_str("No such action \"");
        msg.append(name);
        msg.append("\"");
        Err(StrategyError::Misc { msg })
    }
}

/// The trades that shrink both legs of the staked-token position.
#[derive(Clone, Copy, Debug, PartialEq, Eq, Structural)]
pub struct ReducePlan {
    /// Staked token to sell on the bridge venue, if any.
    pub sell_on_bridge: Option<SecondaryAsset>,
    /// Short position to close on the margin venue.
    pub close_short: SecondaryAsset,
}

pub open spec fn reduce_amount_spec(opt: Option<PrimaryAsset>, b: Balances, price: BuySellPrice) -> int {
    match opt {
        Some(a) => a@,
        None => sec_to_prim(min_i(-b.e1.operational_coins@, b.ee.operational_coins@), price.sell@),
    }
}

/// Sells on the bridge venue only while it and the staking venue hold at least
/// as much as the short (less one unit), and never leave less than a unit
/// there; the short is closed by the amount, or whole when less than a unit
/// would stay open, and by no less than 1.1 units.
pub open spec fn reduce_plan_spec(amount: int, b: Balances, price: BuySellPrice) -> (int, int) {
    let one = SCALE as int;
    let short = -b.e1.operational_coins@;
    let ee_op = b.ee.operational_coins@;
    let amount_sec = max_i(prim_to_sec(amount, price.buy@), one);
    let held = ee_op + b.e2.staked_coins@ + b.e2.unstaked_coins@;
    let sell = if held - short >= -one && ee_op >= one {
        let part = min_i(ee_op, amount_sec);
        if ee_op - part < one {
            ee_op
        } else {
            part
        }
    } else {
        0
    };
    let close = max_i(if short - amount_sec < one { short } else { amount_sec }, 110_000_000);
    (sell, close)
}

pub fn reduce_secondary_plan(
    b: &Balances,
    price: &BuySellPrice,
    opt_amount: Option<PrimaryAsset>,
    use_bridge: bool,
) -> (r: Result<ReducePlan, StrategyError>)
    requires
        b.wf(),
        price.wf(),
        opt_amount is Some ==> amount_ok(opt_amount->Some_0@),
    ensures
        r is Ok <==> use_bridge && reduce_amount_spec(opt_amount, *b, *price) > 0,
        r is Ok ==> ({
            let (sell, close) = reduce_plan_spec(reduce_amount_spec(opt_amount, *b, *price), *b, *price);
            &&& r->Ok_0.close_short@ == close
            &&& (sell > 0 ==> r->Ok_0.sell_on_bridge == Some(SecondaryAsset(Value { raw: sell as i128 })))
            &&& (sell <= 0 ==> r->Ok_0.sell_on_bridge is None)
        }),
{
    let one_s = SecondaryAsset(Value::one());
    let short = b.e1.operational_coins.negate();
    let ee_op = b.ee.operational_coins;
    let amount = match opt_amount {
        Some(a) => a,
        None => short.min(ee_op).to_prim(price.sell),
    };
    if amount.0.raw <= 0 {
        return Err(StrategyError::misc("nothing to reduce"));
    }
    if !use_bridge {
        return Err(StrategyError::misc("conversions need the bridge venue enabled"));
    }
    let amount_sec = amount.to_sec(price.buy).max(one_s);
    let held = ee_op.plus(b.e2.staked_coins).plus(b.e2.unstaked_coins);
    let sell = if one_s.negate().le(held.minus(short)) && one_s.le(ee_op) {
        let part = ee_op.min(amount_sec);
        if ee_op.minus(part).lt(one_s) {
            ee_op
        } else {
            part
        }
    } else {
        SecondaryAsset::zero()
    };
    let close = if short.minus(amount_sec).lt(one_s) {
        short
    } else {
        amount_sec
    }.max(SecondaryAsset(Value::from_raw(110_000_000)));
    let sell_on_bridge = if sell.0.raw > 0 {
        Some(sell)
    } else {
        None
    };
    Ok(ReducePlan { sell_on_bridge, close_short: close })
}

/// The trades that grow both legs of the staked-token position.
#[derive(Clone, Copy, Debug, PartialEq, Eq, Structural)]
pub struct EnlargePlan {
    /// Short position to open on the margin venue first, if any.
    pub open_short: Option<SecondaryAsset>,
    /// Settlement token to spend on the staked token on the bridge venue.
    pub buy_on_bridge: PrimaryAsset,
}

/// Buys for the amount (the bridge venue's settlement token by default), at
/// least one lot and a half percent; opens short for the same value, capped
/// at five times the margin venue's free funds and at least one unit, unless
/// the short already exceeds the holdings by more than that.
pub open spec fn enlarge_plan_spec(opt: Option<PrimaryAsset>, b: Balances, price: BuySellPrice) -> (Option<int>, int) {
    let one = SCALE as int;
    let base = match opt {
        Some(a) => a@,
        None => b.ee.transferring_coins@,
    };
    let buy = max_i(base, sec_to_prim(100_500_000, price.buy@));
    let e1_amount = min_i(buy, fx_mul(b.e1.free@, 5 * SCALE));
    let excess = sec_to_prim(
        -b.e1.operational_coins@ - (b.ee.operational_coins@ + b.e2.staked_coins@ + b.e2.unstaked_coins@),
        price.sell@,
    );
    let short = if excess <= e1_amount {
        Some(max_i(prim_to_sec(e1_amount, price.sell@), one))
    } else {
        None
    };
    (short, buy)
}

pub fn enlarge_secondary_plan(
    b: &Balances,
    price: &BuySellPrice,
    opt_amount: Option<PrimaryAsset>,
    use_bridge: bool,
) -> (r: Result<EnlargePlan, StrategyError>)
    requires
        b.wf(),
        price.wf(),
        opt_amount is Some ==> amount_ok(opt_amount->Some_0@),
    ensures
        r is Ok <==> use_bridge,
        r is Ok ==> ({
            let (short, buy) = enlarge_plan_spec(opt_amount, *b, *price);
            &&& r->Ok_0.buy_on_bridge@ == buy
            &&& (short is None <==> r->Ok_0.open_short is None)
            &&& (short is Some ==> r->Ok_0.open_short->Some_0@ == short->Some_0)
        }),
{
    if !use_bridge {
        return Err(StrategyError::misc("conversions need the bridge venue enabled"));
    }
    let one_s = SecondaryAsset(Value::one());
    let min_lot = SecondaryAsset(Value::from_raw(100_500_000)).to_prim(price.buy);
    let base = match opt_amount {
        Some(a) => a,
        None => b.ee.transferring_coins,
    };
    let buy = base.max(min_lot);
    let e1_amount = buy.min(b.e1.free.times(Value::from_int(5)));
    let excess = b.e1.operational_coins.negate().minus(
        b.ee.operational_coins.plus(b.e2.staked_coins).plus(b.e2.unstaked_coins),
    ).to_prim(price.sell);
    let open_short = if excess.le(e1_amount) {
        Some(e1_amount.to_sec(price.sell).max(one_s))
    } else {
        None
    };
    Ok(EnlargePlan { open_short, buy_on_bridge: buy })
}

pub open spec fn default_amount_spec(action: ActionName, b: Balances) -> Option<int> {
    match action {
        ActionName::ChangeShort => Some(
            -b.e1.operational_coins@ - (b.e2.staked_coins@ + b.ee.operational_coins@),
        ),
        ActionName::E1ToWallet => Some(b.e1.free@),
        ActionName::E2ToEE => Some(b.e2.unstaked_coins@),
        ActionName::EEToE2 => Some(b.ee.operational_coins@),
        ActionName::EEToWallet => Some(b.ee.transferring_coins@),
        ActionName::Stake => Some(b.e2.unstaked_coins@),
        ActionName::Unstake => Some(b.e2.staked_coins@),
        ActionName::WalletToE1 => Some(b.wallet.transferring_coins@),
        ActionName::WalletToEE => Some(b.wallet.transferring_coins@),
        _ => None,
    }
}

/// The amount an action moves when none is given: everything available at its
/// source (the short is trued up to the staked balance plus the bridge venue's
/// staked token). The two combined
/// trades and the debug views have none.
pub fn default_amount(action: ActionName, b: &Balances) -> (r: Option<Value>)
    requires
        b.wf(),
    ensures
        r is Some <==> default_amount_spec(action, *b) is Some,
        r is Some ==> r->Some_0@ == default_amount_spec(action, *b)->Some_0,
{
    match action {
        ActionName::ChangeShort => Some(
            b.e1.operational_coins.negate().minus(b.e2.staked_coins.plus(b.ee.operational_coins)).0,
        ),
        ActionName::E1ToWallet => Some(b.e1.free.0),
        ActionName::E2ToEE => Some(b.e2.unstaked_coins.0),
        ActionName::EEToE2 => Some(b.ee.operational_coins.0),
        ActionName::EEToWallet => Some(b.ee.transferring_coins.0),
        ActionName::Stake => Some(b.e2.unstaked_coins.0),
        ActionName::Unstake => Some(b.e2.staked_coins.0),
        ActionName::WalletToE1 => Some(b.wallet.transferring_coins.0),
        ActionName::WalletToEE => Some(b.wallet.transferring_coins.0),
        _ => None,
    }
}

pub open spec fn manual_command_spec(action: ActionName, value: Option<Value>, b: Balances) -> Option<Command> {
    let v = match value {
        Some(x) => x,
        None => match default_amount_spec(action, b) {
            Some(d) => Value { raw: d as i128 },
            None => Value { raw: 0 },
        },
    };
    match action {
        ActionName::ChangeShort => Some(Command::ChangeShort(SecondaryAsset(v))),
        ActionName::E1ToWallet => Some(Command::E1ToWallet(PrimaryAsset(v))),
        ActionName::E2ToEE => Some(Command::E2ToEE(SecondaryAsset(v))),
        ActionName::EEToE2 => Some(Command::EEToE2(SecondaryAsset(v))),
        ActionName::EEToWallet => Some(Command::EEToWallet(PrimaryAsset(v))),
        ActionName::Stake => Some(Command::Stake(SecondaryAsset(v))),
        ActionName::Unstake => Some(Command::Unstake(SecondaryAsset(v))),
        ActionName::WalletToE1 => Some(Command::WalletToE1(PrimaryAsset(v))),
        ActionName::WalletToEE => Some(Command::WalletToEE(PrimaryAsset(v))),
        ActionName::ReduceSecondarySoft => Some(
            Command::ReduceSecondarySoft(
                match value {
                    Some(x) => Some(PrimaryAsset(x)),
                    None => None,
                },
            ),
        ),
        ActionName::EnlargeSecondarySoft => Some(
            Command::EnlargeSecondarySoft(
                match value {
                    Some(x) => Some(PrimaryAsset(x)),
                    None => None,
                },
            ),
        ),
        ActionName::DebugShowBalances | ActionName::DebugShowState => None,
    }
}

/// The operation an operator asked for by name, with the given amount or the
/// action's default; the debug views are no operation.
pub fn manual_command(action: ActionName, value: Option<Value>, b: &Balances) -> (r: Option<Command>)
    requires
        b.wf(),
    ensures
        r == manual_command_spec(action, value, *b),
{
    let v = match value {
        Some(x) => x,
        None => match default_amount(action, b) {
            Some(d) => d,
            None => Value::zero(),
        },
    };
    match action {
        ActionName::ChangeShort => Some(Command::ChangeShort(SecondaryAsset(v))),
        ActionName::E1ToWallet => Some(Command::E1ToWallet(PrimaryAsset(v))),
        ActionName::E2ToEE => Some(Command::E2ToEE(SecondaryAsset(v))),
        ActionName::EEToE2 => Some(Command::EEToE2(SecondaryAsset(v))),
        ActionName::EEToWallet => Some(Command::EEToWallet(PrimaryAsset(v))),
        ActionName::Stake => Some(Command::Stake(SecondaryAsset(v))),
        ActionName::Unstake => Some(Command::Unstake(SecondaryAsset(v))),
        ActionName::WalletToE1 => Some(Command::WalletToE1(PrimaryAsset(v))),
        ActionName::WalletToEE => Some(Command::WalletToEE(PrimaryAsset(v))),
        ActionName::ReduceSecondarySoft => Some(
            Command::ReduceSecondarySoft(
                match value {
                    Some(x) => Some(PrimaryAsset(x)),
                    None => None,
                },
            ),
        ),
        ActionName::EnlargeSecondarySoft => Some(
            Command::EnlargeSecondarySoft(
                match value {
                    Some(x) => Some(PrimaryAsset(x)),
                    None => None,
                },
            ),
        ),
        ActionName::DebugShowBalances | ActionName::DebugShowState => None,
    }
}

} // verus!
