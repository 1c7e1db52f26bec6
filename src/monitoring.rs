//! Names of the exported metrics.
use vstd::prelude::*;

verus! {

pub const METRIC_PREFIX: &'static str = "hedgedstaking";

pub open spec fn prefix_spec(s: Seq<char>) -> Seq<char> {
    METRIC_PREFIX@ + "_"@ + s
}

/// A metric name under this program's prefix.
pub fn prefix(s: &str) -> (r: String)
    ensures
        r@ == prefix_spec(s@),
{
    let mut r = String::from_str(METRIC_PREFIX);
    r.append("_");
    r.append(s);
    r
}

/// The name of a balance gauge.
pub fn prefix_balance(s: String) -> (r: String)
    ensures
        r@ == prefix_spec("balance_"@ + s@),
{
    let mut name = String::from_str("balance_");
    name.append(s.as_str());
    prefix(name.as_str())
}

/// The name of an event counter.
pub fn prefix_event(s: String) -> (r: String)
    ensures
        r@ == prefix_spec("event_"@ + s@),
{
    let mut name = String::from_str("event_");
    name.append(s.as_str());
    prefix(name.as_str())
}

/// The name of an expense counter.
pub fn prefix_expense(s: &str) -> (r: String)
    ensures
        r@ == prefix_spec("expense_"@ + s@),
{
    let mut name = String::from_str("expense_");
    name.append(s);
    prefix(name.as_str())
}

} // verus!
