//! Classification of a user's duty status at an instant, and the time left
//! until or within a shift.

use vstd::prelude::*;
use vstd::string::*;
use crate::shift::{all_valid, Shift};
use crate::text::{duration_label, format_duration};
use crate::time::{Instant, DAY_MS, HOUR_MS, SECOND_MS};

verus! {

/// The three mutually exclusive duty states.
#[derive(Clone, Copy, Debug, PartialEq, Eq, Structural)]
pub enum Duty {
    OnDutyNow,
    OnDutySoon,
    OffDuty,
}

/// The shift covers `now`: its start is included, its end is not.
pub open spec fn active_at(now: Instant, s: Shift) -> bool {
    s.start.ms <= now.ms && now.ms < s.end.ms
}

/// The shift starts within the coming day, both bounds included.
pub open spec fn starts_within_day(now: Instant, s: Shift) -> bool {
    now.ms <= s.start.ms && s.start.ms <= now.ms + DAY_MS
}

/// On duty now if some shift covers `now`; else on duty soon if some shift
/// starts within the coming day; else off duty.
pub open spec fn duty_of(now: Instant, shifts: Seq<Shift>) -> Duty {
    if exists|i: int| 0 <= i < shifts.len() && active_at(now, #[trigger] shifts[i]) {
        Duty::OnDutyNow
    } else if exists|i: int| 0 <= i < shifts.len() && starts_within_day(now, #[trigger] shifts[i]) {
        Duty::OnDutySoon
    } else {
        Duty::OffDuty
    }
}

/// Classifies the duty status of the owner of `shifts` at `now`.
pub fn classify_duty(now: Instant, shifts: &Vec<Shift>) -> (r: Duty)
    requires
        now.valid(),
        all_valid(shifts@),
    ensures
        r == duty_of(now, shifts@),
{
    let mut i: usize = 0;
    while i < shifts.len()
        invariant
            i <= shifts.len(),
            forall|j: int| 0 <= j < i ==> !active_at(now, #[trigger] shifts@[j]),
        decreases shifts.len() - i,
    {
        if now.ms >= shifts[i].start.ms && now.ms < shifts[i].end.ms {
            return Duty::OnDutyNow;
        }
        i += 1;
    }
    let horizon = now.ms + DAY_MS;
    let mut k: usize = 0;
    while k < shifts.len()
        invariant
            k <= shifts.len(),
            horizon == now.ms + DAY_MS,
            forall|j: int| 0 <= j < shifts.len() ==> !active_at(now, #[trigger] shifts@[j]),
            forall|j: int| 0 <= j < k ==> !starts_within_day(now, #[trigger] shifts@[j]),
        decreases shifts.len() - k,
    {
        if shifts[k].start.ms >= now.ms && shifts[k].start.ms <= horizon {
            return Duty::OnDutySoon;
        }
        k += 1;
    }
    Duty::OffDuty
}

/// What is shown of a shift's timing: the time until it starts, or, once it
/// has started, `"now, "` and the time until it ends.
pub open spec fn remaining_label(now: Instant, s: Shift) -> Seq<char> {
    if s.start.ms - now.ms <= 0 {
        "now, "@ + duration_label(s.end.ms - now.ms)
    } else {
        duration_label(s.start.ms - now.ms)
    }
}

/// The timing label of a shift as seen at `now`.
pub fn time_remaining(now: Instant, shift: &Shift) -> (r: String)
    requires
        now.valid(),
        shift.valid(),
    ensures
        r@ == remaining_label(now, *shift),
{
    let delta = shift.start.millis_since(now);
    if delta <= 0 {
        let mut out = String::from_str("now, ");
        let rest = format_duration(shift.end.millis_since(now));
        out.append(rest.as_str());
        out
    } else {
        format_duration(delta)
    }
}

/// A shift that starts at `now` and lasts an hour makes its owner on duty
/// now, whatever the other shifts are.
pub proof fn lemma_shift_starting_now_is_active(now: Instant, shifts: Seq<Shift>, i: int)
    requires
        0 <= i < shifts.len(),
        shifts[i].start == now,
        shifts[i].end.ms == now.ms + HOUR_MS,
    ensures
        duty_of(now, shifts) == Duty::OnDutyNow,
{
    assert(active_at(now, shifts[i]));
}

/// A lone shift that ends exactly at `now` does not cover it: its end is
/// excluded, and it has already started, so its owner is off duty.
pub proof fn lemma_shift_ending_now_is_off(now: Instant, s: Shift)
    requires
        s.start.ms == now.ms - SECOND_MS,
        s.end == now,
    ensures
        duty_of(now, seq![s]) == Duty::OffDuty,
{
    assert(!active_at(now, seq![s][0]));
    assert(!starts_within_day(now, seq![s][0]));
}

/// A lone shift that starts exactly one day after `now` makes its owner on
/// duty soon: the upper bound of the coming day is included.
pub proof fn lemma_start_one_day_ahead_is_soon(now: Instant, s: Shift)
    requires
        s.start.ms == now.ms + DAY_MS,
    ensures
        duty_of(now, seq![s]) == Duty::OnDutySoon,
{
    assert(!active_at(now, seq![s][0]));
    assert(starts_within_day(now, seq![s][0]));
}

/// A lone shift that starts one day and one second after `now` leaves its
/// owner off duty.
pub proof fn lemma_start_past_one_day_is_off(now: Instant, s: Shift)
    requires
        s.start.ms == now.ms + DAY_MS + SECOND_MS,
    ensures
        duty_of(now, seq![s]) == Duty::OffDuty,
{
    assert(!active_at(now, seq![s][0]));
    assert(!starts_within_day(now, seq![s][0]));
}

/// A shift that covers `now` decides the status, whatever other shift
/// starts within the coming day.
pub proof fn lemma_active_takes_precedence(now: Instant, shifts: Seq<Shift>, i: int, j: int)
    requires
        0 <= i < shifts.len(),
        0 <= j < shifts.len(),
        active_at(now, shifts[i]),
        starts_within_day(now, shifts[j]),
    ensures
        duty_of(now, shifts) == Duty::OnDutyNow,
{
    assert(active_at(now, shifts[i]));
}

} // verus!
