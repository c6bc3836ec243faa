//! When recurring payments fall due.
use vstd::prelude::*;

use crate::contract::EscrowContract;
use crate::errors::EscrowError;
use crate::types::RecurringInterval;

verus! {

/// How many seconds lie between two payments.
pub open spec fn interval_seconds(interval: RecurringInterval) -> int {
    match interval {
        RecurringInterval::Daily => 86_400,
        RecurringInterval::Weekly => 604_800,
        RecurringInterval::Monthly => 2_592_000,
    }
}

/// When the payment after one that is due at `current` falls due.
pub open spec fn next_time(current: u64, interval: RecurringInterval) -> Result<u64, EscrowError> {
    if current + interval_seconds(interval) > u64::MAX {
        Err(EscrowError::E44)
    } else {
        Ok((current + interval_seconds(interval)) as u64)
    }
}

/// How many payments from `start` on are due at `end` or before.
pub open spec fn payments_until(start: u64, end: u64, interval: RecurringInterval) -> int {
    1 + (end - start) / interval_seconds(interval)
}

/// Payments up to an end date can be counted: there are not too many of them,
/// and the first one after the end, where the end falls between two, still has a
/// timestamp.
pub open spec fn countable(start: u64, end: u64, interval: RecurringInterval) -> bool {
    let n = payments_until(start, end, interval);
    let secs = interval_seconds(interval);
    &&& start <= end
    &&& n <= u32::MAX
    &&& (end - start) % secs == 0 || start + n * secs <= u64::MAX
}

/// How many payments a schedule has: the smaller of what the end date and the
/// count allow.
pub open spec fn total_payments(
    start: u64,
    interval: RecurringInterval,
    end_date: Option<u64>,
    count: Option<u32>,
) -> Result<u32, EscrowError> {
    match (end_date, count) {
        (None, None) => Err(EscrowError::E44),
        (None, Some(n)) => if n == 0 {
            Err(EscrowError::E44)
        } else {
            Ok(n)
        },
        (Some(end), None) => if !countable(start, end, interval) {
            Err(EscrowError::E44)
        } else {
            Ok(payments_until(start, end, interval) as u32)
        },
        (Some(end), Some(n)) => if !countable(start, end, interval) || n == 0 {
            Err(EscrowError::E44)
        } else if n < payments_until(start, end, interval) {
            Ok(n)
        } else {
            Ok(payments_until(start, end, interval) as u32)
        },
    }
}

/// Exactly the payments counted by `payments_until` are due by the end date.
pub proof fn lemma_payments_until(start: u64, end: u64, interval: RecurringInterval, k: int)
    requires
        start <= end,
        k >= 0,
    ensures
        k < payments_until(start, end, interval) <==> start + k * interval_seconds(interval) <= end,
{
    let secs = interval_seconds(interval);
    let d = end - start;
    vstd::arithmetic::div_mod::lemma_fundamental_div_mod(d, secs);
    let q = d / secs;
    if k <= q {
        assert(k * secs <= q * secs) by (nonlinear_arith)
            requires
                k <= q,
                secs > 0,
        ;
        assert(q * secs == secs * q) by (nonlinear_arith);
    } else {
        assert(k * secs >= secs * q + secs) by (nonlinear_arith)
            requires
                k >= q + 1,
                secs > 0,
        ;
    }
}

impl EscrowContract {
    pub fn next_schedule_time(
        current: u64,
        interval: &RecurringInterval,
    ) -> (r: Result<u64, EscrowError>)
        ensures
            r == next_time(current, *interval),
    {
        let seconds: u64 = match interval {
            RecurringInterval::Daily => 86_400,
            RecurringInterval::Weekly => 604_800,
            RecurringInterval::Monthly => 2_592_000,
        };
        match current.checked_add(seconds) {
            None => Err(EscrowError::E44),
            Some(next) => Ok(next),
        }
    }

    pub fn resolve_total_payments(
        start_time: u64,
        interval: RecurringInterval,
        end_date: Option<u64>,
        number_of_payments: Option<u32>,
    ) -> (r: Result<u32, EscrowError>)
        ensures
            r == total_payments(start_time, interval, end_date, number_of_payments),
    {
        let by_end_date: Option<u32> = match end_date {
            None => None,
            Some(end) => {
                if end < start_time {
                    return Err(EscrowError::E44);
                }
                let mut payments: u32 = 1;
                let mut scheduled_at: u64 = start_time;
                let mut done: bool = false;
                let ghost secs = interval_seconds(interval);
                while !done && scheduled_at < end
                    invariant
                        secs == interval_seconds(interval),
                        start_time <= scheduled_at <= end,
                        end_date == Some(end),
                        payments >= 1,
                        scheduled_at == start_time + (payments - 1) * secs,
                        done ==> scheduled_at + secs > end && scheduled_at + secs <= u64::MAX,
                    decreases end - scheduled_at, if done { 0int } else { 1 },
                {
                    proof {
                        lemma_payments_until(start_time, end, interval, payments - 1);
                        lemma_payments_until(start_time, end, interval, payments as int);
                        assert((payments - 1) * secs + secs == payments * secs)
                            by (nonlinear_arith);
                        if scheduled_at + secs > end {
                            assert(payments_until(start_time, end, interval) == payments);
                            vstd::arithmetic::div_mod::lemma_fundamental_div_mod(
                                end - start_time,
                                secs,
                            );
                            assert(secs * (payments - 1) == (payments - 1) * secs)
                                by (nonlinear_arith);
                        }
                    }
                    let next: u64 = Self::next_schedule_time(scheduled_at, &interval)?;
                    if next > end {
                        done = true;
                    } else {
                        match payments.checked_add(1) {
                            None => {
                                return Err(EscrowError::E44);
                            },
                            Some(n) => {
                                payments = n;
                            },
                        }
                        scheduled_at = next;
                    }
                }
                proof {
                    lemma_payments_until(start_time, end, interval, payments - 1);
                    lemma_payments_until(start_time, end, interval, payments as int);
                    assert((payments - 1) * secs + secs == payments * secs) by (nonlinear_arith);
                    assert(payments_until(start_time, end, interval) == payments);
                    if !done {
                        vstd::arithmetic::div_mod::lemma_mod_multiples_basic(payments - 1, secs);
                    }
                }
                Some(payments)
            },
        };
        let total: u32 = match (by_end_date, number_of_payments) {
            (Some(a), Some(b)) => if a < b {
                a
            } else {
                b
            },
            (Some(a), None) => a,
            (None, Some(b)) => b,
            (None, None) => {
                return Err(EscrowError::E44);
            },
        };
        if total == 0 {
            return Err(EscrowError::E44);
        }
        Ok(total)
    }
}

} // verus!
