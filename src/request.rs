//! The parts of the request to the on-call service: the time window, the
//! query parameters and the authorization header.

use vstd::prelude::*;
use vstd::string::*;
use crate::time::{format_iso, iso_seconds_utc, Instant, DAY_MS, MAX_MILLIS};

verus! {

/// How far ahead shifts are fetched, in days.
pub const LOOKAHEAD_DAYS: i64 = 14;

/// The range of time whose shifts are asked for.
#[derive(Clone, Copy, Debug, PartialEq, Eq, Structural)]
pub struct QueryWindow {
    pub from: Instant,
    pub to: Instant,
}

impl QueryWindow {
    pub open spec fn valid(self) -> bool {
        self.from.valid() && self.to.valid()
    }

    /// The window from `now` to the end of the lookahead horizon; `None`
    /// when that end falls past the supported range.
    pub fn starting_at(now: Instant) -> (r: Option<QueryWindow>)
        requires
            now.valid(),
        ensures
            r is Some <==> now.ms + LOOKAHEAD_DAYS * DAY_MS <= MAX_MILLIS,
            r matches Some(w) ==> w.valid() && w.from == now && w.to.ms == now.ms + LOOKAHEAD_DAYS
                * DAY_MS,
    {
        match now.checked_add_millis(LOOKAHEAD_DAYS * DAY_MS) {
            Some(to) => Some(QueryWindow { from: now, to }),
            None => None,
        }
    }

    /// The query parameters that select the schedule and the window:
    /// `schedule_ids[]`, `since` and `until`, the last two in RFC 3339 UTC
    /// to the second.
    pub fn query_params(&self, schedule_id: &String) -> (r: Vec<(String, String)>)
        requires
            self.valid(),
        ensures
            r@.len() == 3,
            r@[0].0@ == "schedule_ids[]"@ && r@[0].1@ == schedule_id@,
            r@[1].0@ == "since"@ && r@[1].1@ == iso_seconds_utc(self.from.ms as int),
            r@[2].0@ == "until"@ && r@[2].1@ == iso_seconds_utc(self.to.ms as int),
    {
        let mut r: Vec<(String, String)> = Vec::new();
        r.push((String::from_str("schedule_ids[]"), schedule_id.clone()));
        r.push((String::from_str("since"), format_iso(self.from)));
        r.push((String::from_str("until"), format_iso(self.to)));
        r
    }
}

/// The value of the `Authorization` header that carries `token`.
pub fn auth_header_value(token: &String) -> (r: String)
    ensures
        r@ == "Token token="@ + token@,
{
    let mut out = String::from_str("Token token=");
    out.append(token.as_str());
    out
}

} // verus!
