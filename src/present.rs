//! The status icon and the text lines of the upcoming shifts.

use vstd::prelude::*;
use vstd::string::*;
use crate::duty::{classify_duty, duty_of, remaining_label, time_remaining, Duty};
use crate::shift::{all_valid, Shift};
use crate::time::{format_readable, Instant};

verus! {

/// Default icon while on duty: a green circle.
pub const GREEN_CIRCLE: char = '\u{1F7E2}';

/// Default icon while a shift is near: a yellow circle.
pub const YELLOW_CIRCLE: char = '\u{1F7E1}';

/// Default icon while off duty: a centred multiplication sign.
pub const CENTER_X: char = '\u{00D7}';

/// The character at position `i` of `s`, or `default` when `s` is shorter.
pub open spec fn char_or(s: Seq<char>, i: int, default: char) -> char {
    if i < s.len() { s[i] } else { default }
}

/// The three icons, for on duty, on duty soon and off duty, taken from the
/// configured characters in order, each missing one replaced by its default.
pub open spec fn icons_of(s: Seq<char>) -> (char, char, char) {
    (char_or(s, 0, GREEN_CIRCLE), char_or(s, 1, YELLOW_CIRCLE), char_or(s, 2, CENTER_X))
}

/// Reads the three status icons from the configured characters.
pub fn get_icons(icons: &str) -> (r: (char, char, char))
    ensures
        r == icons_of(icons@),
{
    let n = icons.unicode_len();
    let a = if n > 0 { icons.get_char(0) } else { GREEN_CIRCLE };
    let b = if n > 1 { icons.get_char(1) } else { YELLOW_CIRCLE };
    let c = if n > 2 { icons.get_char(2) } else { CENTER_X };
    (a, b, c)
}

/// The icon of a duty state.
pub open spec fn icon_for(duty: Duty, icons: (char, char, char)) -> char {
    match duty {
        Duty::OnDutyNow => icons.0,
        Duty::OnDutySoon => icons.1,
        Duty::OffDuty => icons.2,
    }
}

/// Picks the icon of a duty state.
pub fn render_icon(duty: Duty, icons: (char, char, char)) -> (r: char)
    ensures
        r == icon_for(duty, icons),
{
    match duty {
        Duty::OnDutyNow => icons.0,
        Duty::OnDutySoon => icons.1,
        Duty::OffDuty => icons.2,
    }
}

/// The link suffix of a shift line: empty without a domain.
pub open spec fn href_of(domain: Option<Seq<char>>, schedule_id: Seq<char>) -> Seq<char> {
    match domain {
        Some(d) => " | href="@ + d + "/schedules#"@ + schedule_id,
        None => Seq::empty(),
    }
}

/// Builds the link suffix to a schedule's page under `domain`, if any.
pub fn schedule_href(domain: &Option<String>, schedule_id: &String) -> (r: String)
    ensures
        r@ == href_of(
            match domain {
                Some(d) => Some(d@),
                None => None,
            },
            schedule_id@,
        ),
{
    match domain {
        Some(d) => {
            let mut out = String::from_str(" | href=");
            out.append(d.as_str());
            out.append("/schedules#");
            out.append(schedule_id.as_str());
            out
        },
        None => String::new(),
    }
}

/// The text of one upcoming shift:
/// `"{summary} - ({remaining}) {start} - {end}{href}"`.
pub open spec fn line_text(
    summary: Seq<char>,
    remaining: Seq<char>,
    start: Seq<char>,
    end: Seq<char>,
    href: Seq<char>,
) -> Seq<char> {
    summary + " - ("@ + remaining + ") "@ + start + " - "@ + end + href
}

/// Joins the parts of one upcoming-shift line.
pub fn render_line(
    summary: &str,
    remaining: &str,
    start: &str,
    end: &str,
    href: &str,
) -> (r: String)
    ensures
        r@ == line_text(summary@, remaining@, start@, end@, href@),
{
    let mut out = String::from_str(summary);
    out.append(" - (");
    out.append(remaining);
    out.append(") ");
    out.append(start);
    out.append(" - ");
    out.append(end);
    out.append(href);
    out
}

/// The view of an optional text.
pub open spec fn opt_view(o: Option<String>) -> Option<Seq<char>> {
    match o {
        Some(d) => Some(d@),
        None => None,
    }
}

/// The line of an upcoming shift whose start and end read, in local time,
/// as `start` and `end`.
pub open spec fn upcoming_text(
    now: Instant,
    s: Shift,
    domain: Option<String>,
    start: Seq<char>,
    end: Seq<char>,
) -> Seq<char> {
    line_text(
        s.schedule_summary@,
        remaining_label(now, s),
        start,
        end,
        href_of(opt_view(domain), s.schedule_id@),
    )
}

/// `text` is the line of shift `s` for some local-time rendering of its
/// start and end.
pub open spec fn is_upcoming_line(now: Instant, s: Shift, domain: Option<String>, text: Seq<char>) -> bool {
    exists|start: Seq<char>, end: Seq<char>| text == upcoming_text(now, s, domain, start, end)
}

/// The line of one upcoming shift. Start and end are written in the
/// machine's local time zone, which decides their text.
pub fn upcoming_line(now: Instant, shift: &Shift, domain: &Option<String>) -> (r: String)
    requires
        now.valid(),
        shift.valid(),
    ensures
        is_upcoming_line(now, *shift, *domain, r@),
{
    let remaining = time_remaining(now, shift);
    let start = format_readable(shift.start);
    let end = format_readable(shift.end);
    let href = schedule_href(domain, &shift.schedule_id);
    let r = render_line(
        shift.schedule_summary.as_str(),
        remaining.as_str(),
        start.as_str(),
        end.as_str(),
        href.as_str(),
    );
    assert(r@ == upcoming_text(now, *shift, *domain, start@, end@));
    r
}

/// What is printed for a user: the status icon and one line per shift.
pub struct Report {
    pub icon: char,
    pub upcoming: Vec<String>,
}

/// Evaluates the shifts at `now` and renders them: the icon of the duty
/// state, and the shifts' lines in the order in which they were fetched,
/// none left out and none reordered.
pub fn render_report(
    now: Instant,
    shifts: &Vec<Shift>,
    icons: &str,
    domain: &Option<String>,
) -> (r: Report)
    requires
        now.valid(),
        all_valid(shifts@),
    ensures
        r.icon == icon_for(duty_of(now, shifts@), icons_of(icons@)),
        r.upcoming@.len() == shifts@.len(),
        forall|i: int|
            0 <= i < shifts@.len() ==> is_upcoming_line(now, shifts@[i], *domain, #[trigger] r.upcoming@[i]@),
{
    let duty = classify_duty(now, shifts);
    let icon = render_icon(duty, get_icons(icons));
    let mut upcoming: Vec<String> = Vec::new();
    let mut i: usize = 0;
    while i < shifts.len()
        invariant
            i <= shifts.len(),
            now.valid(),
            all_valid(shifts@),
            upcoming@.len() == i,
            forall|j: int|
                0 <= j < i ==> is_upcoming_line(now, shifts@[j], *domain, #[trigger] upcoming@[j]@),
        decreases shifts.len() - i,
    {
        assert(shifts@[i as int].valid());
        let line = upcoming_line(now, &shifts[i], domain);
        upcoming.push(line);
        i += 1;
    }
    Report { icon, upcoming }
}

} // verus!
