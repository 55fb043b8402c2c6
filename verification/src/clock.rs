use vstd::prelude::*;

verus! {

/// Milliseconds in a minute.
pub const MINUTE_MS: u64 = 60000;

/// The number of whole minutes shown for a run of `millis` milliseconds.
/// A minute is counted only once the time is strictly past it, so a run of
/// exactly one minute reads as zero minutes and sixty seconds.
pub open spec fn shown_minutes(millis: nat) -> nat {
    if millis == 0 {
        0
    } else {
        ((millis - 1) as nat) / (MINUTE_MS as nat)
    }
}

/// What remains after the shown minutes are taken off.
pub open spec fn shown_rest(millis: nat) -> nat {
    (millis - shown_minutes(millis) * (MINUTE_MS as nat)) as nat
}

/// Splits a run time in milliseconds into the minutes, seconds and
/// milliseconds shown on the clock.
pub fn time(millis: u64) -> (r: (u32, u32, u32))
    requires
        shown_minutes(millis as nat) <= u32::MAX,
    ensures
        r.0 == shown_minutes(millis as nat),
        r.1 == shown_rest(millis as nat) / 1000,
        r.2 == shown_rest(millis as nat) % 1000,
        r.0 as nat * 60000 + r.1 as nat * 1000 + r.2 as nat == millis as nat,
        r.1 <= 60,
        r.1 == 60 ==> r.2 == 0,
        r.2 < 1000,
{
    let mins: u64 = if millis == 0 {
        0
    } else {
        (millis - 1) / MINUTE_MS
    };
    proof {
        if millis > 0 {
            let m = (millis - 1) as int;
            assert(m == (m / 60000) * 60000 + m % 60000) by (nonlinear_arith);
            assert(0 <= m % 60000 < 60000) by (nonlinear_arith);
        }
    }
    let rest: u64 = millis - mins * MINUTE_MS;
    assert(rest <= 60000);
    assert(rest == (rest / 1000) * 1000 + rest % 1000) by (nonlinear_arith);
    assert(rest / 1000 <= 60) by (nonlinear_arith)
        requires
            rest <= 60000,
    ;
    assert(rest / 1000 == 60 ==> rest % 1000 == 0) by (nonlinear_arith)
        requires
            rest <= 60000,
    ;
    ((mins as u32), ((rest / 1000) as u32), ((rest % 1000) as u32))
}

/// The clock never runs backwards: a later time shows at least as many
/// minutes, and with the same minutes at least as much of the rest.
pub proof fn law_clock_monotone(earlier: nat, later: nat)
    requires
        earlier <= later,
    ensures
        shown_minutes(earlier) <= shown_minutes(later),
        shown_minutes(earlier) == shown_minutes(later) ==> shown_rest(earlier) <= shown_rest(later),
{
    if earlier > 0 {
        let a = (earlier - 1) as nat;
        let b = (later - 1) as nat;
        assert(a / 60000 <= b / 60000) by (nonlinear_arith)
            requires
                a <= b,
        ;
    }
}

/// The minutes shown never exceed the milliseconds counted, and the rest is
/// at most one minute.
pub proof fn law_clock_rest_bounded(millis: nat)
    ensures
        shown_minutes(millis) * 60000 <= millis,
        shown_rest(millis) <= 60000,
        millis > 0 ==> shown_rest(millis) > 0,
{
    if millis > 0 {
        let m = (millis - 1) as nat;
        assert(m == (m / 60000) * 60000 + m % 60000) by (nonlinear_arith);
        assert(m % 60000 < 60000) by (nonlinear_arith);
    }
}

} // verus!
