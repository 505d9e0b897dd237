//! When a charge is due: never before the due time, and no later than a
//! fixed grace window after it.
use vstd::prelude::*;
use crate::error::ErrorCode;

verus! {

/// The grace window after a due time during which a late charge is still
/// accepted: seven days, in seconds.
pub const GRACE_PERIOD_SECONDS: i64 = 604800;

/// The outcome of the due-window check at time `now` for a charge due at
/// `next_payment`. The end of the window is computed with checked addition.
pub open spec fn payment_window(now: i64, next_payment: i64) -> Result<(), ErrorCode> {
    if now < next_payment {
        Err(ErrorCode::PaymentNotDue)
    } else if next_payment + GRACE_PERIOD_SECONDS > i64::MAX {
        Err(ErrorCode::Overflow)
    } else if now > next_payment + GRACE_PERIOD_SECONDS {
        Err(ErrorCode::PaymentTooLate)
    } else {
        Ok(())
    }
}

/// Decides whether a charge due at `next_payment` may be collected at `now`.
pub fn check_payment_window(now: i64, next_payment: i64) -> (r: Result<(), ErrorCode>)
    ensures
        r == payment_window(now, next_payment),
{
    if now < next_payment {
        return Err(ErrorCode::PaymentNotDue);
    }
    let max_payment_time = match next_payment.checked_add(GRACE_PERIOD_SECONDS) {
        Some(t) => t,
        None => return Err(ErrorCode::Overflow),
    };
    if now > max_payment_time {
        return Err(ErrorCode::PaymentTooLate);
    }
    Ok(())
}

/// The due time of the charge after one made at `now`, or `Overflow` where
/// it does not fit.
pub fn next_due(now: i64, interval_seconds: i64) -> (r: Result<i64, ErrorCode>)
    ensures
        match r {
            Ok(t) => t == now + interval_seconds,
            Err(e) => e == ErrorCode::Overflow && (now + interval_seconds > i64::MAX
                || now + interval_seconds < i64::MIN),
        },
{
    match now.checked_add(interval_seconds) {
        Some(t) => Ok(t),
        None => Err(ErrorCode::Overflow),
    }
}

} // verus!
