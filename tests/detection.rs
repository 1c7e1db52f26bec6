use hedged_staking::config::{Limits, StrategyConfig};
use hedged_staking::fixed::Value;
use hedged_staking::strategy::{compute_totals, detect_state, Prices, StrategyState};
use hedged_staking::types::{
    Balances, BuySellPrice, E1Balances, E2Balances, EEBalances, PrimaryAsset, SecondaryAsset,
    WalletBalances,
};

fn prim(n: i64) -> PrimaryAsset {
    PrimaryAsset::from_int(n)
}

fn sec(n: i64) -> SecondaryAsset {
    SecondaryAsset::from_int(n)
}

fn prim_raw(raw: i128) -> PrimaryAsset {
    PrimaryAsset(Value::from_raw(raw))
}

fn sec_raw(raw: i128) -> SecondaryAsset {
    SecondaryAsset(Value::from_raw(raw))
}

fn config() -> StrategyConfig {
    StrategyConfig {
        initial_ratio_percent: Value::from_int(100),
        low_ratio_percent: Value::from_int(90),
        high_ratio_percent: Value::from_int(110),
        max_order_usdc: Value::from_int(1_000_000),
        max_order_std_dev_usdc: Value::from_int(0),
        max_slippage_usdc_1: Value::from_int(0),
        order_timeout: 60,
        keypress_to_continue: false,
        monitoring_timeout: 300,
        operations_timeout: 600,
        use_binance_for_exchange: true,
        panics_to_log: false,
    }
}

fn prices() -> Prices {
    let p = BuySellPrice { buy: Value::from_int(10), sell: Value::from_int(10) };
    Prices { e1: p, e2: p, ee: p }
}

/// A on the margin venue, the staked-token position on the staking venue, the
/// wallet's settlement token; nothing on the bridge venue.
fn snapshot(a: i64, short: i64, staked: i64, unstaked: i64, wallet: i64) -> Balances {
    Balances {
        e1: E1Balances { total: prim(a), free: prim(a), operational_coins: sec(-short) },
        e2: E2Balances {
            transferring_coins: prim(0),
            intermediate_coins: prim(0),
            staked_coins: sec(staked),
            unstaked_coins: sec(unstaked),
        },
        ee: EEBalances { transferring_coins: prim(0), operational_coins: sec(0) },
        wallet: WalletBalances { transferring_coins: prim(wallet), gas_coins: Value::from_int(0) },
    }
}

fn detect(b: &Balances) -> StrategyState {
    let c = config();
    let l = Limits::standard(&c);
    detect_state(b, &prices(), &c, &l).unwrap().state
}

#[test]
fn scenario_below_band_unstakes_toward_a() {
    // total 1000: A 300, B 700 (all staked); ratio 0.43 < 0.9.
    let b = snapshot(300, 70, 70, 0, 0);
    // shortfall 200, with three commissions and the tolerance: 223.3165275, at price 10
    assert_eq!(detect(&b), StrategyState::Unstake(sec_raw(2_233_165_275)));
}

#[test]
fn scenario_below_band_transfers_unstaked_toward_a() {
    let b = snapshot(300, 70, 40, 30, 0);
    assert_eq!(detect(&b), StrategyState::TransferE2ToEE(sec_raw(2_233_165_275)));
}

#[test]
fn scenario_above_band_withdraws_from_a() {
    // A 550, B 450: ratio 1.22 > 1.1; (A - target) = 50, inflated by fees and tolerance.
    let b = snapshot(550, 45, 45, 0, 0);
    assert_eq!(detect(&b), StrategyState::TransferE1ToWallet(prim_raw(5_582_913_187)));
}

#[test]
fn scenario_wallet_covers_need_of_a() {
    // A 400, B 500, wallet 200: A needs 150, sent with the tolerance.
    let b = snapshot(400, 50, 50, 0, 200);
    assert_eq!(detect(&b), StrategyState::TransferWalletToE1(prim(165)));
}

#[test]
fn scenario_in_band_stakes_unstaked() {
    let b = snapshot(500, 100, 45, 5, 0);
    assert_eq!(detect(&b), StrategyState::Stake(sec(5)));
}

#[test]
fn in_band_balanced_short_monitors() {
    let b = snapshot(500, 50, 50, 0, 0);
    assert_eq!(detect(&b), StrategyState::Monitoring);
}

#[test]
fn in_band_short_too_large_is_reduced() {
    let b = snapshot(500, 55, 50, 0, 0);
    assert_eq!(detect(&b), StrategyState::ReduceShort(sec(5)));
}

#[test]
fn in_band_short_too_small_is_enlarged() {
    let b = snapshot(500, 45, 50, 0, 0);
    assert_eq!(detect(&b), StrategyState::EnlargeShort(sec(5)));
}

#[test]
fn ratio_follows_formula() {
    let b = snapshot(300, 70, 70, 0, 0);
    let t = compute_totals(&b, &prices()).unwrap();
    assert_eq!(t.e1, prim(300));
    assert_eq!(t.e2, prim(700));
    assert_eq!(t.total, prim(1000));
    // 300 / 700 cut at eight decimal places
    assert_eq!(t.ratio, Value::from_raw(42_857_142));
    assert_eq!(t.extended_ratio, Value::from_raw(42_857_142));
}

#[test]
fn extended_ratio_counts_wallet_with_a() {
    let b = snapshot(400, 50, 50, 0, 200);
    let t = compute_totals(&b, &prices()).unwrap();
    assert_eq!(t.ratio, Value::from_raw(80_000_000));
    assert_eq!(t.extended_ratio, Value::from_raw(120_000_000));
}

#[test]
fn empty_staking_venue_has_no_ratio() {
    let b = snapshot(100, 0, 0, 0, 0);
    assert!(compute_totals(&b, &prices()).is_err());
    let c = config();
    let l = Limits::standard(&c);
    assert!(detect_state(&b, &prices(), &c, &l).is_err());
}

#[test]
fn detection_requires_bridge_venue() {
    let b = snapshot(500, 50, 50, 0, 0);
    let mut c = config();
    c.use_binance_for_exchange = false;
    let l = Limits::standard(&c);
    assert!(detect_state(&b, &prices(), &c, &l).is_err());
}

#[test]
fn settlement_funds_on_staking_venue_in_band_is_an_error() {
    let mut b = snapshot(530, 47, 47, 0, 0);
    b.e2.transferring_coins = prim(60);
    let c = config();
    let l = Limits::standard(&c);
    assert!(detect_state(&b, &prices(), &c, &l).is_err());
}

#[test]
fn detection_twice_gives_same_state() {
    let b = snapshot(300, 70, 40, 30, 0);
    assert_eq!(detect(&b), detect(&b));
    let b = snapshot(400, 50, 50, 0, 200);
    assert_eq!(detect(&b), detect(&b));
}

#[test]
fn dust_rule_moves_whole_unstaked_balance() {
    // 22.33 needed, 23 unstaked: 23 - 22.33 * 1.1 < 1, so all 23 go.
    let b = snapshot(300, 70, 47, 23, 0);
    assert_eq!(detect(&b), StrategyState::TransferE2ToEE(sec(23)));
}

#[test]
fn dust_rule_unstakes_whole_staked_balance() {
    // 22.33 needed with only 22.5 staked: less than a unit would stay staked.
    let mut b = snapshot(300, 70, 0, 0, 0);
    b.e2.staked_coins = sec_raw(2_250_000_000);
    b.e2.intermediate_coins = prim_raw(47_500_000_000);
    assert_eq!(detect(&b), StrategyState::Unstake(sec_raw(2_250_000_000)));
}

#[test]
fn small_excess_still_withdraws_the_minimum() {
    // A 70, B 30: the excess is 20, under the minimum of 50, so 50 is withdrawn.
    let b = snapshot(70, 3, 3, 0, 0);
    assert_eq!(detect(&b), StrategyState::TransferE1ToWallet(prim_raw(5_582_913_187)));
}

#[test]
fn withdrawal_above_band_lowers_ratio() {
    let b = snapshot(550, 45, 45, 0, 0);
    let before = compute_totals(&b, &prices()).unwrap().ratio;
    let amount = match detect(&b) {
        StrategyState::TransferE1ToWallet(x) => x,
        other => panic!("unexpected state {:?}", other),
    };
    let mut after = b;
    after.e1.total = after.e1.total.minus(amount);
    after.wallet.transferring_coins = after.wallet.transferring_coins.plus(amount);
    let ratio_after = compute_totals(&after, &prices()).unwrap().ratio;
    assert!(ratio_after.raw < before.raw);
    // and closer to the initial ratio of 1
    assert!((ratio_after.raw - 100_000_000).abs() < (before.raw - 100_000_000).abs());
}

#[test]
fn idle_wallet_funds_go_to_a_when_a_needs_them() {
    let b = snapshot(450, 45, 45, 0, 100);
    assert_eq!(detect(&b), StrategyState::TransferWalletToE1(prim(55)));
}

#[test]
fn idle_bridge_funds_go_to_staking_venue() {
    // The wallet's 100 look headed for B: counted with B, the ratio is in band.
    let b = snapshot(500, 40, 40, 0, 100);
    assert_eq!(detect(&b), StrategyState::TransferWalletToEE(prim(100)));
}

#[test]
fn bridge_settlement_token_is_converted_for_staking_venue() {
    let mut b = snapshot(500, 40, 40, 0, 0);
    b.ee.transferring_coins = prim(100);
    assert_eq!(detect(&b), StrategyState::EnlargeSecondaryBoth(prim(100)));
}

#[test]
fn bridge_staked_token_moves_to_staking_venue() {
    let mut b = snapshot(500, 40, 40, 0, 0);
    b.ee.operational_coins = sec(10);
    assert_eq!(detect(&b), StrategyState::TransferEEToE2(sec(10)));
}

#[test]
fn bridge_tops_up_what_wallet_lacks() {
    // A needs 150 (165 with tolerance); the wallet has 100, the bridge venue 100.
    let mut b = snapshot(400, 50, 50, 0, 100);
    b.ee.transferring_coins = prim(100);
    assert_eq!(detect(&b), StrategyState::TransferEEToWallet(prim(65)));
}

#[test]
fn dust_rule_moves_whole_bridge_balance() {
    // A needs 130 (143 with tolerance); the wallet has 100, the bridge venue 60.
    // Sending the minimum of 50 would leave 60 - 55 = 5, under one unit's price.
    let mut b = snapshot(400, 50, 50, 0, 100);
    b.ee.transferring_coins = prim(60);
    assert_eq!(detect(&b), StrategyState::TransferEEToWallet(prim(60)));
}

#[test]
fn transfer_under_one_unit_is_not_emitted() {
    // A 9, B 11 (1.1 staked): below the band, but only 0.11 units would move
    // and nothing is unstaked, so nothing is sent.
    let mut b = snapshot(9, 1, 0, 0, 0);
    b.e2.staked_coins = sec_raw(110_000_000);
    assert_eq!(detect(&b), StrategyState::Monitoring);
}

#[test]
fn short_is_matched_against_staked_plus_bridge() {
    // In band. The short of 51.5 against 50 staked plus 0.9 on the bridge venue
    // is off by 0.6, within one unit, so nothing is done (the unstaked 0.9 does
    // not count against the short).
    let mut b = snapshot(518, 0, 50, 0, 0);
    b.e1.operational_coins = sec_raw(-5_150_000_000);
    b.e2.unstaked_coins = sec_raw(90_000_000);
    b.ee.operational_coins = sec_raw(90_000_000);
    assert_eq!(detect(&b), StrategyState::Monitoring);
    // With a short of 53, it is reduced by the 2.1 excess.
    b.e1.operational_coins = sec_raw(-5_300_000_000);
    assert_eq!(detect(&b), StrategyState::ReduceShort(sec_raw(210_000_000)));
}
