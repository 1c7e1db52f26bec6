use hedged_staking::actions::{
    change_short_plan, command_for, default_amount, enlarge_secondary_plan, manual_command,
    parse_action_name, plan_cycle, reduce_secondary_plan, wallet_to_e1_amount, ActionName,
    Command, ShortChange,
};
use hedged_staking::config::{Limits, StrategyConfig};
use hedged_staking::fixed::Value;
use hedged_staking::strategy::{pretty_state_msg, StrategyState};
use hedged_staking::utils::{copysign, percent_to_decimal};
use hedged_staking::types::{
    avg_price, get_free_transferring_coins, Balances, BuySellPrice, E1Balances, E2Balances,
    EEBalances, PrimaryAsset, SecondaryAsset, StrategyError, WalletBalances, WhichExchange,
};

fn prim(n: i64) -> PrimaryAsset {
    PrimaryAsset::from_int(n)
}

fn sec(n: i64) -> SecondaryAsset {
    SecondaryAsset::from_int(n)
}

fn price10() -> BuySellPrice {
    BuySellPrice { buy: Value::from_int(10), sell: Value::from_int(10) }
}

fn balances() -> Balances {
    Balances {
        e1: E1Balances { total: prim(500), free: prim(300), operational_coins: sec(-50) },
        e2: E2Balances {
            transferring_coins: prim(1),
            intermediate_coins: prim(2),
            staked_coins: sec(40),
            unstaked_coins: sec(3),
        },
        ee: EEBalances { transferring_coins: prim(70), operational_coins: sec(8) },
        wallet: WalletBalances { transferring_coins: prim(95), gas_coins: Value::from_raw(1_234_567) },
    }
}

fn ratio_config(init: i64, low: i64, high: i64) -> StrategyConfig {
    StrategyConfig {
        initial_ratio_percent: Value::from_int(init),
        low_ratio_percent: Value::from_int(low),
        high_ratio_percent: Value::from_int(high),
        max_order_usdc: Value::from_int(1000),
        max_order_std_dev_usdc: Value::from_int(0),
        max_slippage_usdc_1: Value::from_int(0),
        order_timeout: 60,
        keypress_to_continue: false,
        monitoring_timeout: 300,
        operations_timeout: 600,
        use_binance_for_exchange: true,
        panics_to_log: false,
    }
}

#[test]
fn conversions_go_through_a_price() {
    let p = PrimaryAsset::from_int(25);
    let s: SecondaryAsset = p.to_sec(Value::from_int(10));
    assert_eq!(s, SecondaryAsset(Value::from_raw(250_000_000)));
    let back: PrimaryAsset = s.to_prim(Value::from_int(10));
    assert_eq!(back, p);
    // a third of a unit, cut at eight places
    assert_eq!(prim(1).to_sec(Value::from_int(3)), SecondaryAsset(Value::from_raw(33_333_333)));
}

#[test]
fn arithmetic_truncates_toward_zero() {
    let x = PrimaryAsset(Value::from_raw(-100_000_001));
    assert_eq!(x.times(Value::from_raw(50_000_000)), PrimaryAsset(Value::from_raw(-50_000_000)));
    assert_eq!(prim(7).div_by(Value::from_int(2)), PrimaryAsset(Value::from_raw(350_000_000)));
    assert_eq!(prim(7).plus(prim(3)).minus(prim(1)), prim(9));
    assert_eq!(prim(4).negate(), prim(-4));
}

#[test]
fn round_cuts_digits_toward_zero() {
    let x = PrimaryAsset(Value::from_raw(123_456_789));
    assert_eq!(x.round(2), PrimaryAsset(Value::from_raw(123_000_000)));
    assert_eq!(x.round(8), x);
    let y = SecondaryAsset(Value::from_raw(-123_456_789));
    assert_eq!(y.round(4), SecondaryAsset(Value::from_raw(-123_450_000)));
    assert_eq!(y.round(0), SecondaryAsset(Value::from_raw(-100_000_000)));
    assert_eq!(y.round(12), y);
}

#[test]
fn copysign_takes_sign_of_carrier() {
    assert_eq!(copysign(Value::from_int(3), Value::from_int(-1)), Value::from_int(-3));
    assert_eq!(copysign(Value::from_int(-3), Value::from_int(2)), Value::from_int(3));
    assert_eq!(copysign(Value::from_int(-3), Value::from_int(0)), Value::from_int(3));
}

#[test]
fn average_price_is_mean_of_buy_and_sell() {
    let p = BuySellPrice { buy: Value::from_int(10), sell: Value::from_int(11) };
    assert_eq!(avg_price(&p), Value::from_raw(1_050_000_000));
}

#[test]
fn percent_becomes_ratio() {
    assert_eq!(percent_to_decimal(Value::from_int(90)), Value::from_raw(90_000_000));
    assert_eq!(percent_to_decimal(Value::from_int(110)), Value::from_raw(110_000_000));
}

#[test]
fn free_transferring_coins_per_venue() {
    let b = balances();
    assert_eq!(get_free_transferring_coins(&b, WhichExchange::First), prim(300));
    assert_eq!(get_free_transferring_coins(&b, WhichExchange::Second), prim(1));
    assert_eq!(get_free_transferring_coins(&b, WhichExchange::Exchange), prim(70));
    assert_eq!(get_free_transferring_coins(&b, WhichExchange::Wallet), prim(95));
}

#[test]
fn ratio_bounds_are_checked() {
    assert!(ratio_config(100, 90, 100).check_ratio_bounds().is_ok());
    assert!(ratio_config(100, 90, 110).check_ratio_bounds().is_err());
    assert!(ratio_config(80, 90, 100).check_ratio_bounds().is_err());
    assert!(ratio_config(100, 100, 90).check_ratio_bounds().is_err());
    assert!(ratio_config(101, 90, 100).check_ratio_bounds().is_err());
}

#[test]
fn error_text_is_kept() {
    let e = StrategyError::misc("boom");
    assert_eq!(e.to_string(), "boom");
    assert_eq!(StrategyError::Misc { msg: "x".to_string() }.to_string(), "x");
}

#[test]
fn states_map_to_commands() {
    assert_eq!(command_for(StrategyState::Monitoring), None);
    assert_eq!(command_for(StrategyState::ReduceShort(sec(5))), Some(Command::ChangeShort(sec(-5))));
    assert_eq!(command_for(StrategyState::EnlargeShort(sec(5))), Some(Command::ChangeShort(sec(5))));
    assert_eq!(
        command_for(StrategyState::ReduceSecondaryBoth(prim(7))),
        Some(Command::ReduceSecondarySoft(Some(prim(7))))
    );
    assert_eq!(
        command_for(StrategyState::TransferWalletToE1(prim(165))),
        Some(Command::WalletToE1(prim(165)))
    );
}

#[test]
fn cycle_plans_wait_only_when_monitoring() {
    let m = plan_cycle(StrategyState::Monitoring, false, false, 300);
    assert_eq!(m.command, None);
    assert_eq!(m.delay_secs, Some(300));
    let k = plan_cycle(StrategyState::Monitoring, false, true, 300);
    assert_eq!(k.delay_secs, None);
    let a = plan_cycle(StrategyState::Stake(sec(5)), false, false, 300);
    assert_eq!(a.command, Some(Command::Stake(sec(5))));
    assert_eq!(a.delay_secs, None);
    let only = plan_cycle(StrategyState::Stake(sec(5)), true, false, 300);
    assert_eq!(only.command, None);
    assert_eq!(only.delay_secs, Some(300));
}

#[test]
fn wallet_deposit_amount_rules() {
    let b = balances(); // wallet holds 95
    assert_eq!(wallet_to_e1_amount(Some(prim(100)), &b).unwrap(), prim(95));
    assert_eq!(wallet_to_e1_amount(Some(prim(50)), &b).unwrap(), prim(50));
    assert!(wallet_to_e1_amount(Some(prim(200)), &b).is_err());
    assert_eq!(wallet_to_e1_amount(None, &b).unwrap(), prim(95));
}

#[test]
fn short_change_follows_sign() {
    let b = balances(); // short 50, staked 40, bridge 8
    assert_eq!(change_short_plan(None, &b), ShortChange::Enlarge(sec(2)));
    assert_eq!(change_short_plan(Some(sec(3)), &b), ShortChange::Enlarge(sec(3)));
    assert_eq!(change_short_plan(Some(sec(-4)), &b), ShortChange::Reduce(sec(4)));
}

#[test]
fn reduce_plan_sells_and_closes() {
    let b = balances(); // short 50, bridge holds 8, staking 43
    // 30 settlement at 10: 3 units; 8 - 3 leaves more than a unit on the bridge venue
    let plan = reduce_secondary_plan(&b, &price10(), Some(prim(30)), true).unwrap();
    assert_eq!(plan.sell_on_bridge, Some(sec(3)));
    assert_eq!(plan.close_short, sec(3));
    // default: min(short, bridge) = 8 units, all of the bridge venue's holdings
    let plan = reduce_secondary_plan(&b, &price10(), None, true).unwrap();
    assert_eq!(plan.sell_on_bridge, Some(sec(8)));
    assert_eq!(plan.close_short, sec(8));
    assert!(reduce_secondary_plan(&b, &price10(), Some(prim(0)), true).is_err());
    assert!(reduce_secondary_plan(&b, &price10(), Some(prim(30)), false).is_err());
}

#[test]
fn enlarge_plan_buys_and_opens_short() {
    let b = balances(); // bridge settlement 70, free 300
    let plan = enlarge_secondary_plan(&b, &price10(), None, true).unwrap();
    assert_eq!(plan.buy_on_bridge, prim(70));
    // short 50 is below holdings 51 (8 + 40 + 3): open short for 70 at 10
    assert_eq!(plan.open_short, Some(sec(7)));
    // at least one lot and a half percent: 10.05
    let small = enlarge_secondary_plan(&b, &price10(), Some(prim(1)), true).unwrap();
    assert_eq!(small.buy_on_bridge, PrimaryAsset(Value::from_raw(1_005_000_000)));
    assert!(enlarge_secondary_plan(&b, &price10(), None, false).is_err());
}

#[test]
fn action_names_parse() {
    assert_eq!(parse_action_name("do_stake").unwrap(), ActionName::Stake);
    assert_eq!(parse_action_name("do_wallet_to_e1").unwrap(), ActionName::WalletToE1);
    assert_eq!(parse_action_name("do_debug_show_state").unwrap(), ActionName::DebugShowState);
    assert_eq!(parse_action_name("foo").unwrap_err().to_string(), "No such action \"foo\"");
    assert!(parse_action_name("do_nothing").is_err());
    assert!(parse_action_name("").is_err());
}

#[test]
fn manual_commands_use_defaults() {
    let b = balances();
    assert_eq!(default_amount(ActionName::EEToWallet, &b), Some(Value::from_int(70)));
    assert_eq!(default_amount(ActionName::ChangeShort, &b), Some(Value::from_int(2)));
    assert_eq!(default_amount(ActionName::DebugShowBalances, &b), None);
    assert_eq!(manual_command(ActionName::Stake, None, &b), Some(Command::Stake(sec(3))));
    assert_eq!(
        manual_command(ActionName::Unstake, Some(Value::from_int(2)), &b),
        Some(Command::Unstake(sec(2)))
    );
    assert_eq!(
        manual_command(ActionName::ReduceSecondarySoft, None, &b),
        Some(Command::ReduceSecondarySoft(None))
    );
    assert_eq!(manual_command(ActionName::DebugShowState, None, &b), None);
}

#[test]
fn state_messages() {
    assert_eq!(pretty_state_msg(&StrategyState::Monitoring), "Monitoring");
    assert_eq!(pretty_state_msg(&StrategyState::Stake(sec(1))), "Overflow: stake on Kraken");
    assert_eq!(StrategyState::Unstake(sec(1)).get_message(), "Underflow: unstake");
}

#[test]
fn limits_validity() {
    let c = ratio_config(100, 90, 100);
    let mut l = Limits::standard(&c);
    assert!(l.is_valid());
    l.tolerance = Value::from_int(2);
    assert!(!l.is_valid());
    l.tolerance = Value::from_raw(10_000_000);
    l.min_withdraw = prim(0);
    assert!(!l.is_valid());
}
