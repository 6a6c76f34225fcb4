//! The on-call shift as fetched from the scheduling service, and the
//! selection of the shifts that belong to one user.

use vstd::prelude::*;
use crate::time::Instant;

verus! {

/// One contiguous on-call interval of one user on one schedule.
#[derive(Debug)]
pub struct Shift {
    pub start: Instant,
    pub end: Instant,
    pub schedule_id: String,
    pub schedule_summary: String,
    pub user_id: String,
}

impl Shift {
    /// Both ends lie in the supported range. `start < end` is expected of
    /// the service but not relied on.
    pub open spec fn valid(&self) -> bool {
        self.start.valid() && self.end.valid()
    }

    /// A copy of the shift, field for field.
    pub fn duplicate(&self) -> (r: Shift)
        ensures
            r == *self,
    {
        Shift {
            start: self.start,
            end: self.end,
            schedule_id: self.schedule_id.clone(),
            schedule_summary: self.schedule_summary.clone(),
            user_id: self.user_id.clone(),
        }
    }

    /// Builds a shift from the text fields of the service's response;
    /// `None` when a timestamp does not parse or is out of range.
    pub fn from_fields(
        start: &str,
        end: &str,
        schedule_id: String,
        schedule_summary: String,
        user_id: String,
    ) -> (r: Option<Shift>)
        ensures
            r is Some <==> (Instant::parse_spec(start@) is Some && Instant::parse_spec(end@) is Some),
            r matches Some(s) ==> {
                &&& s.valid()
                &&& Some(s.start) == Instant::parse_spec(start@)
                &&& Some(s.end) == Instant::parse_spec(end@)
                &&& s.schedule_id == schedule_id
                &&& s.schedule_summary == schedule_summary
                &&& s.user_id == user_id
            },
    {
        match (Instant::parse(start), Instant::parse(end)) {
            (Some(s), Some(e)) => Some(Shift { start: s, end: e, schedule_id, schedule_summary, user_id }),
            _ => None,
        }
    }
}

/// Every shift of the list is valid.
pub open spec fn all_valid(shifts: Seq<Shift>) -> bool {
    forall|i: int| 0 <= i < shifts.len() ==> #[trigger] shifts[i].valid()
}

/// The shifts owned by `user`, in their original order.
pub open spec fn owned_by(shifts: Seq<Shift>, user: Seq<char>) -> Seq<Shift> {
    shifts.filter(|s: Shift| s.user_id@ == user)
}

/// Filtering by owner keeps exactly the owner's shifts in their relative
/// order: every kept shift is the owner's, each shift of the owner is kept,
/// and filtering two lists one after the other gives the two results one
/// after the other.
pub proof fn lemma_owned_by_keeps_owner_in_order(xs: Seq<Shift>, ys: Seq<Shift>, user: Seq<char>)
    ensures
        forall|i: int|
            0 <= i < owned_by(xs, user).len() ==> (#[trigger] owned_by(xs, user)[i]).user_id@ == user,
        forall|i: int|
            0 <= i < xs.len() && (#[trigger] xs[i]).user_id@ == user ==> owned_by(xs, user).contains(xs[i]),
        owned_by(xs + ys, user) == owned_by(xs, user) + owned_by(ys, user),
{
    let pred = |s: Shift| s.user_id@ == user;
    xs.filter_lemma(pred);
    assert forall|i: int| 0 <= i < xs.len() && (#[trigger] xs[i]).user_id@ == user implies owned_by(xs, user).contains(xs[i]) by {
        xs.lemma_filter_contains(pred, i);
    }
    Seq::filter_distributes_over_add(xs, ys, pred);
}

/// Keeps the shifts whose owner is `user_id`, in their original order.
pub fn filter_by_user(shifts: Vec<Shift>, user_id: &String) -> (r: Vec<Shift>)
    ensures
        r@ == owned_by(shifts@, user_id@),
{
    let mut out: Vec<Shift> = Vec::new();
    let mut i: usize = 0;
    while i < shifts.len()
        invariant
            i <= shifts.len(),
            out@ == owned_by(shifts@.take(i as int), user_id@),
        decreases shifts.len() - i,
    {
        let s = &shifts[i];
        proof {
            assert(shifts@.take(i as int + 1).drop_last() =~= shifts@.take(i as int));
            reveal(Seq::filter);
        }
        if s.user_id == *user_id {
            out.push(s.duplicate());
        }
        i += 1;
    }
    assert(shifts@.take(shifts.len() as int) =~= shifts@);
    out
}

} // verus!
