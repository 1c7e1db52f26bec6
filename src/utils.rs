//! Small numeric helpers.
use crate::fixed::{fx_div, mag, within, Value, SCALE};
use vstd::prelude::*;

verus! {

/// A percentage as a plain ratio.
pub open spec fn percent_to_ratio(p: int) -> int {
    fx_div(p, 100 * SCALE)
}

/// A percentage as a plain ratio: `percent / 100`.
pub fn percent_to_decimal(percent: Value) -> (r: Value)
    requires
        within(percent@, 1_000_000_000_000_000_000_000_000_000_000),
    ensures
        r@ == percent_to_ratio(percent@),
        within(r@, mag(percent@)),
{
    percent.div_by(Value::from_int(100))
}

/// The magnitude of `value` with the sign of `sign_carrier` (zero counts as positive).
pub fn copysign(value: Value, sign_carrier: Value) -> (r: Value)
    requires
        value.raw > i128::MIN,
    ensures
        r@ == if sign_carrier@ >= 0 { mag(value@) } else { -mag(value@) },
{
    let m: i128 = if value.raw < 0 { -value.raw } else { value.raw };
    if sign_carrier.raw >= 0 {
        Value::from_raw(m)
    } else {
        Value::from_raw(-m)
    }
}

} // verus!
