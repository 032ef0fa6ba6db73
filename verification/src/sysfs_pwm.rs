//! The duty-cycle arithmetic of a sysfs PWM channel driven through
//! embedded-hal's `SetDutyCycle`: a duty value out of `MAX_DUTY` becomes a
//! high time in nanoseconds within the channel's period.

use vstd::prelude::*;

verus! {

/// The duty value that stands for a 100% duty cycle.
pub const MAX_DUTY: u16 = 65535;

/// The high time, in nanoseconds, of `duty / MAX_DUTY` of a period of
/// `period_ns` nanoseconds, rounded down.
pub open spec fn spec_duty_cycle_ns(duty: u16, period_ns: u32) -> int {
    (duty as int * period_ns as int) / (MAX_DUTY as int)
}

/// The largest duty value the channel accepts.
pub fn max_duty_cycle() -> (r: u16)
    ensures
        r == MAX_DUTY,
{
    MAX_DUTY
}

proof fn lemma_scaled_fits(duty: u16, period_ns: u32)
    ensures
        0 <= spec_duty_cycle_ns(duty, period_ns) <= period_ns,
{
    let d = duty as int;
    let p = period_ns as int;
    let m = MAX_DUTY as int;
    assert(0 <= d * p <= m * p) by (nonlinear_arith)
        requires
            0 <= d <= m,
            0 <= p,
    ;
    assert((d * p) / m <= (m * p) / m) by (nonlinear_arith)
        requires
            0 <= d * p <= m * p,
            m > 0,
    ;
    assert((m * p) / m == p) by (nonlinear_arith)
        requires
            m > 0,
    ;
    assert(0 <= (d * p) / m) by (nonlinear_arith)
        requires
            0 <= d * p,
            m > 0,
    ;
}

/// The high time to write to the channel for `duty`, given the period the
/// channel reports.
pub fn duty_cycle_ns(duty: u16, period_ns: u32) -> (r: u32)
    ensures
        r == spec_duty_cycle_ns(duty, period_ns),
{
    proof {
        lemma_scaled_fits(duty, period_ns);
    }
    let product: u64 = (duty as u64) * (period_ns as u64);
    let ns: u64 = product / (MAX_DUTY as u64);
    ns as u32
}

/// The high time never exceeds the period; no duty gives no high time, the
/// full duty the whole period; and a larger duty never gives less.
pub proof fn law_duty_cycle_bounds(duty: u16, other: u16, period_ns: u32)
    ensures
        0 <= spec_duty_cycle_ns(duty, period_ns) <= period_ns,
        spec_duty_cycle_ns(0, period_ns) == 0,
        spec_duty_cycle_ns(MAX_DUTY, period_ns) == period_ns,
        duty <= other ==> spec_duty_cycle_ns(duty, period_ns) <= spec_duty_cycle_ns(other, period_ns),
{
    lemma_scaled_fits(duty, period_ns);
    let p = period_ns as int;
    let m = MAX_DUTY as int;
    assert((m * p) / m == p) by (nonlinear_arith)
        requires
            m > 0,
    ;
    if duty <= other {
        let a = duty as int;
        let b = other as int;
        assert((a * p) / m <= (b * p) / m) by (nonlinear_arith)
            requires
                0 <= a <= b,
                0 <= p,
                m > 0,
        ;
    }
}

} // verus!
