//! Token and venue names, and how each venue spells a market pair.
use crate::types::WhichExchange;
use vstd::prelude::*;

verus! {

pub const TRANSFERRING_COIN: &'static str = "USDC";

pub const INTERMEDIATE_COIN: &'static str = "ZUSD";

pub const OPERATING_COIN: &'static str = "ATOM";

pub const GAS_COIN: &'static str = "ETH";

/// The staked token's name on the staking venue.
pub const E2_STAKED_COIN: &'static str = "ATOM.S";

pub const E2_UNSTAKED_COIN: &'static str = "ATOM";

pub const E2_TRANSFERRING_COIN: &'static str = "USDC";

pub const E2_INTERMEDIATE_COIN: &'static str = "ZUSD";

pub const EE_TRANSFERRING_COIN: &'static str = "BUSD";

pub const E1_NAME: &'static str = "dYdX";

pub const E2_NAME: &'static str = "Kraken";

pub const EE_NAME: &'static str = "Binance";

pub const WALLET_NAME: &'static str = "wallet";

/// Character-wise equality of two strings.
pub fn same_text(a: &str, b: &str) -> (r: bool)
    ensures
        r == (a@ == b@),
{
    let n = a.unicode_len();
    if n != b.unicode_len() {
        return false;
    }
    let mut i: usize = 0;
    while i < n
        invariant
            n == a@.len(),
            n == b@.len(),
            i <= n,
            forall|j: int| 0 <= j < i ==> a@[j] == b@[j],
        decreases n - i,
    {
        if a.get_char(i) != b.get_char(i) {
            return false;
        }
        i = i + 1;
    }
    proof {
        assert(a@ =~= b@);
    }
    true
}

pub open spec fn market_part_spec(we: WhichExchange, name: Seq<char>) -> Seq<char> {
    match we {
        WhichExchange::First => if name == TRANSFERRING_COIN@ || name == INTERMEDIATE_COIN@ {
            "USD"@
        } else {
            name
        },
        WhichExchange::Second | WhichExchange::Wallet => if name == E2_INTERMEDIATE_COIN@ {
            "USD"@
        } else {
            name
        },
        WhichExchange::Exchange => if name == TRANSFERRING_COIN@ || name == INTERMEDIATE_COIN@ {
            EE_TRANSFERRING_COIN@
        } else {
            name
        },
    }
}

/// How venue `we` names token `name` inside a market pair (the margin venue
/// quotes in `USD`, the bridge venue settles in its own stable token).
pub fn get_part_of_market_pair<'a>(we: WhichExchange, name: &'a str) -> (r: &'a str)
    ensures
        r@ == market_part_spec(we, name@),
{
    match we {
        WhichExchange::First => {
            if same_text(name, TRANSFERRING_COIN) || same_text(name, INTERMEDIATE_COIN) {
                "USD"
            } else {
                name
            }
        },
        WhichExchange::Second | WhichExchange::Wallet => {
            if same_text(name, E2_INTERMEDIATE_COIN) {
                "USD"
            } else {
                name
            }
        },
        WhichExchange::Exchange => {
            if same_text(name, TRANSFERRING_COIN) || same_text(name, INTERMEDIATE_COIN) {
                EE_TRANSFERRING_COIN
            } else {
                name
            }
        },
    }
}

pub open spec fn market_pair_spec(we: WhichExchange, from: Seq<char>, to: Seq<char>) -> Seq<char> {
    let a = market_part_spec(we, from);
    let b = market_part_spec(we, to);
    match we {
        WhichExchange::First => a + "-"@ + b,
        _ => a + b,
    }
}

/// The market symbol for trading `from` into `to` on venue `we`.
pub fn get_market_pair_name(we: WhichExchange, from: &str, to: &str) -> (r: String)
    ensures
        r@ == market_pair_spec(we, from@, to@),
{
    let xfrom = get_part_of_market_pair(we, from);
    let xto = get_part_of_market_pair(we, to);
    let mut r = String::from_str(xfrom);
    match we {
        WhichExchange::First => {
            r.append("-");
        },
        _ => {},
    }
    r.append(xto);
    r
}

pub open spec fn exchange_name_spec(we: WhichExchange) -> Seq<char> {
    match we {
        WhichExchange::First => E1_NAME@,
        WhichExchange::Second => E2_NAME@,
        WhichExchange::Exchange => EE_NAME@,
        WhichExchange::Wallet => WALLET_NAME@,
    }
}

pub fn get_exchange_name(we: WhichExchange) -> (r: &'static str)
    ensures
        r@ == exchange_name_spec(we),
{
    match we {
        WhichExchange::First => E1_NAME,
        WhichExchange::Second => E2_NAME,
        WhichExchange::Exchange => EE_NAME,
        WhichExchange::Wallet => WALLET_NAME,
    }
}

} // verus!
