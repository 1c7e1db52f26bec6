use hedged_staking::config::{Limits, StrategyConfig};
use hedged_staking::consts::{
    get_exchange_name, get_market_pair_name, get_part_of_market_pair, same_text, OPERATING_COIN,
    TRANSFERRING_COIN,
};
use hedged_staking::fixed::Value;
use hedged_staking::monitoring::{prefix, prefix_balance, prefix_event, prefix_expense};
use hedged_staking::notifications::{alert_message, is_alert, is_forwarded, limit_str, log_message, LogLevel};
use hedged_staking::report::status_message;
use hedged_staking::strategy::{detect_state, Prices};
use hedged_staking::types::{
    Balances, BuySellPrice, E1Balances, E2Balances, EEBalances, PrimaryAsset, SecondaryAsset,
    WalletBalances, WhichExchange,
};

#[test]
fn market_pairs_per_venue() {
    assert_eq!(get_market_pair_name(WhichExchange::First, OPERATING_COIN, TRANSFERRING_COIN), "ATOM-USD");
    assert_eq!(get_market_pair_name(WhichExchange::Second, OPERATING_COIN, "ZUSD"), "ATOMUSD");
    assert_eq!(get_market_pair_name(WhichExchange::Exchange, OPERATING_COIN, TRANSFERRING_COIN), "ATOMBUSD");
    assert_eq!(get_market_pair_name(WhichExchange::Wallet, "ETH", "USDC"), "ETHUSDC");
    assert_eq!(get_part_of_market_pair(WhichExchange::First, "ZUSD"), "USD");
    assert_eq!(get_part_of_market_pair(WhichExchange::Exchange, "ZUSD"), "BUSD");
    assert_eq!(get_part_of_market_pair(WhichExchange::Second, "USDC"), "USDC");
}

#[test]
fn exchange_names() {
    assert_eq!(get_exchange_name(WhichExchange::First), "dYdX");
    assert_eq!(get_exchange_name(WhichExchange::Second), "Kraken");
    assert_eq!(get_exchange_name(WhichExchange::Exchange), "Binance");
    assert_eq!(get_exchange_name(WhichExchange::Wallet), "wallet");
}

#[test]
fn text_equality() {
    assert!(same_text("ATOM", "ATOM"));
    assert!(!same_text("ATOM", "ATOM.S"));
    assert!(!same_text("ATOM", "ATOX"));
    assert!(same_text("", ""));
}

#[test]
fn metric_names() {
    assert_eq!(prefix("price"), "hedgedstaking_price");
    assert_eq!(prefix_balance("dYdX_total".to_string()), "hedgedstaking_balance_dYdX_total");
    assert_eq!(prefix_event("start".to_string()), "hedgedstaking_event_start");
    assert_eq!(prefix_expense("ee_to_e2_sec"), "hedgedstaking_expense_ee_to_e2_sec");
}

#[test]
fn long_messages_are_cut() {
    let long = "a".repeat(3000);
    let cut = limit_str(&long);
    assert_eq!(cut.len(), 2047 + 4);
    assert!(cut.ends_with("a ..."));
    let short = "hello".to_string();
    assert_eq!(limit_str(&short), "hello");
    let exact = "b".repeat(2048);
    assert_eq!(limit_str(&exact), exact);
}

#[test]
fn long_messages_are_cut_by_bytes_at_char_boundaries() {
    // 1500 two-byte characters: 3000 bytes, so cut; byte 2047 falls inside a
    // character, so the cut goes back to byte 2046.
    let wide = "é".repeat(1500);
    assert_eq!(limit_str(&wide), format!("{} ...", "é".repeat(1023)));
    // 2047 ASCII bytes then a two-byte character: byte 2047 is a boundary.
    let mixed = format!("{}é{}", "a".repeat(2047), "z".repeat(10));
    assert_eq!(limit_str(&mixed), format!("{} ...", "a".repeat(2047)));
    let inside = format!("{}é{}", "a".repeat(2046), "z".repeat(10));
    assert_eq!(limit_str(&inside), format!("{} ...", "a".repeat(2046)));
    // exactly 2048 bytes stays whole
    let fits = "é".repeat(1024);
    assert_eq!(limit_str(&fits), fits);
}

#[test]
fn forwarding_rules() {
    assert!(is_forwarded(true, LogLevel::Error, "x"));
    assert!(is_forwarded(true, LogLevel::Warn, "x"));
    assert!(is_forwarded(true, LogLevel::Info, "NOTIFICATION"));
    assert!(!is_forwarded(true, LogLevel::Info, "x"));
    assert!(!is_forwarded(true, LogLevel::Debug, "NOTIFICATION"));
    assert!(!is_forwarded(false, LogLevel::Error, "x"));
    assert!(is_alert(LogLevel::Warn));
    assert!(!is_alert(LogLevel::Info));
}

#[test]
fn log_messages_are_escaped_and_marked() {
    let raw = "a<b & c>d".to_string();
    assert_eq!(
        log_message(LogLevel::Warn, &raw, "12:00"),
        "<b>Warning: a&lt;b &amp; c&gt;d</b>\n\n<i>12:00</i>"
    );
    assert_eq!(log_message(LogLevel::Info, &raw, "t"), "a&lt;b &amp; c&gt;d\n\n<i>t</i>");
    assert_eq!(
        alert_message(LogLevel::Error, &raw, "main.rs:7", "t"),
        "<b>ERROR: a&lt;b &amp; c&gt;d</b>\n\n<code>main.rs:7</code>\n<i>t</i>"
    );
    assert_eq!(
        alert_message(LogLevel::Warn, &"w".to_string(), "p", "t"),
        "w\n\n<code>p</code>\n<i>t</i>"
    );
}

#[test]
fn amounts_print_with_token_names() {
    assert_eq!(PrimaryAsset(Value::from_raw(1_234_567_890)).to_text(2), "12.34 USDC");
    assert_eq!(SecondaryAsset(Value::from_raw(-150_000_000)).to_text(2), "-1.50 ATOM");
    assert_eq!(PrimaryAsset(Value::from_raw(0)).to_text(2), "0.00 USDC");
}

#[test]
fn status_message_lists_venues() {
    let b = Balances {
        e1: E1Balances {
            total: PrimaryAsset::from_int(500),
            free: PrimaryAsset::from_int(500),
            operational_coins: SecondaryAsset::from_int(-100),
        },
        e2: E2Balances {
            transferring_coins: PrimaryAsset::from_int(0),
            intermediate_coins: PrimaryAsset::from_int(0),
            staked_coins: SecondaryAsset::from_int(45),
            unstaked_coins: SecondaryAsset::from_int(5),
        },
        ee: EEBalances { transferring_coins: PrimaryAsset::from_int(0), operational_coins: SecondaryAsset::from_int(0) },
        wallet: WalletBalances { transferring_coins: PrimaryAsset::from_int(0), gas_coins: Value::from_raw(0) },
    };
    let p = BuySellPrice { buy: Value::from_int(10), sell: Value::from_int(10) };
    let prices = Prices { e1: p, e2: p, ee: p };
    let c = StrategyConfig {
        initial_ratio_percent: Value::from_int(100),
        low_ratio_percent: Value::from_int(90),
        high_ratio_percent: Value::from_int(110),
        max_order_usdc: Value::from_int(1_000_000),
        max_order_std_dev_usdc: Value::from_int(0),
        max_slippage_usdc_1: Value::from_int(0),
        order_timeout: 60,
        keypress_to_continue: false,
        monitoring_timeout: 300,
        operations_timeout: 600,
        use_binance_for_exchange: true,
        panics_to_log: false,
    };
    let l = Limits::standard(&c);
    let d = detect_state(&b, &prices, &c, &l).unwrap();
    let text = status_message(&d, &b, &prices, &c, false);
    assert_eq!(
        text,
        "Ratio: 0.9000 < 1.0000 < 1.1000\n\n\
         Total: 1000.00 USDC\n\
         dYdX: 500.00 USDC (incl. 100.00 ATOM),\n\
         Kraken: 500.00 USDC (incl. 50.00 ATOM)\n\
         Binance: 0.00 USDC (incl. 0.00 ATOM)\n\
         wallet: 0.00 USDC (gas: 0.000000 ETH)\n\
         \n\
         Price: 10.0000 ATOM/USDC\n\
         \n\
         Overflow: stake on Kraken"
    );
    let only = status_message(&d, &b, &prices, &c, true);
    assert!(only.starts_with("Ratio: 0.9000 < 1.0000 < 1.1000\n\n(only monitoring)\nTotal: "));
}
