use vstd::prelude::*;

use crate::errors::ErrorCode;

verus! {

/// How many slots must pass since the last activity before a unilateral
/// forced refund is permitted. A demonstration value; treat it as
/// configuration in production.
pub const FORCE_REFUND_TIMEOUT_SLOTS: u64 = 5;

/// Decides whether a session idle since `last_activity_slot` is eligible for
/// a forced refund at clock reading `now_slot`.
///
/// A clock that appears to have gone backward fails with `MathOverflow`.
pub fn timeout_reached(now_slot: u64, last_activity_slot: u64) -> (r: Result<bool, ErrorCode>)
    ensures
        now_slot < last_activity_slot ==> r == Err::<bool, ErrorCode>(ErrorCode::MathOverflow),
        now_slot >= last_activity_slot ==> r == Ok::<bool, ErrorCode>(
            now_slot - last_activity_slot >= FORCE_REFUND_TIMEOUT_SLOTS,
        ),
{
    let elapsed = match now_slot.checked_sub(last_activity_slot) {
        Some(v) => v,
        None => {
            return Err(ErrorCode::MathOverflow);
        },
    };
    Ok(elapsed >= FORCE_REFUND_TIMEOUT_SLOTS)
}

} // verus!
