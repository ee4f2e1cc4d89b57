//! The captain's log nudge: the card that asks for today's entry until the day's log is
//! complete or the pilot dismisses it for the day, and the in-game (YC) dates it shows.

use vstd::prelude::*;
use crate::calendar::{DayStamp, YC_EPOCH_OFFSET};
use crate::text::{push_str, signed_decimal, signed_decimal_chars, string_from_chars, two_digit_chars, two_digits};

verus! {

/// A day in the in-game calendar: `YC`, the YC year, then the month and day on two digits,
/// separated by dots.
pub open spec fn spec_eve_date_label(date: DayStamp) -> Seq<char> {
    "YC"@ + signed_decimal(date.year - YC_EPOCH_OFFSET) + "."@ + two_digits(date.month as nat) + "."@
        + two_digits(date.day as nat)
}

/// A day in the in-game calendar, such as `YC128.07.05`.
pub fn eve_date_label(date: DayStamp) -> (r: String)
    requires
        date.year >= i32::MIN + YC_EPOCH_OFFSET,
    ensures
        r@ == spec_eve_date_label(date),
{
    let mut v: Vec<char> = Vec::new();
    push_str(&mut v, "YC");
    let mut year = signed_decimal_chars((date.year - YC_EPOCH_OFFSET) as i64);
    v.append(&mut year);
    push_str(&mut v, ".");
    let mut month = two_digit_chars(date.month as u64);
    v.append(&mut month);
    push_str(&mut v, ".");
    let mut day = two_digit_chars(date.day as u64);
    v.append(&mut day);
    string_from_chars(&v)
}

/// The nudge: the last day evaluated, whether that day's log was complete, and the day the
/// pilot last dismissed it.
#[derive(Clone, Copy, Debug)]
pub struct Nudge {
    complete: bool,
    dismissed_on: Option<DayStamp>,
    today: Option<DayStamp>,
}

/// The nudge shows once a day has been evaluated, while that day's log is incomplete and the
/// pilot has not dismissed it that day.
pub open spec fn spec_visible(today: Option<DayStamp>, complete: bool, dismissed_on: Option<DayStamp>) -> bool {
    match today {
        Some(t) => !complete && dismissed_on != Some(t),
        None => false,
    }
}

impl Nudge {
    pub closed spec fn spec_today(self) -> Option<DayStamp> {
        self.today
    }

    pub closed spec fn spec_complete(self) -> bool {
        self.complete
    }

    pub closed spec fn spec_dismissed_on(self) -> Option<DayStamp> {
        self.dismissed_on
    }

    /// Whether the nudge shows.
    pub open spec fn spec_is_visible(self) -> bool {
        spec_visible(self.spec_today(), self.spec_complete(), self.spec_dismissed_on())
    }

    /// Nothing evaluated and nothing dismissed.
    pub fn new() -> (r: Nudge)
        ensures
            r.spec_today() is None,
            !r.spec_complete(),
            r.spec_dismissed_on() is None,
    {
        Nudge { complete: false, dismissed_on: None, today: None }
    }

    /// The pilot dismissed the nudge: it stays hidden for the day evaluated last, and that day
    /// is returned to be remembered.
    pub fn dismiss(&mut self) -> (r: Option<DayStamp>)
        ensures
            r == old(self).spec_today(),
            final(self).spec_dismissed_on() == old(self).spec_today(),
            final(self).spec_today() == old(self).spec_today(),
            final(self).spec_complete() == old(self).spec_complete(),
    {
        self.dismissed_on = self.today;
        self.today
    }

    /// A day was evaluated: `today` is the day now, and `complete` whether its log is done.
    pub fn evaluated(&mut self, today: DayStamp, complete: bool)
        ensures
            final(self).spec_today() == Some(today),
            final(self).spec_complete() == complete,
            final(self).spec_dismissed_on() == old(self).spec_dismissed_on(),
    {
        self.today = Some(today);
        self.complete = complete;
    }

    /// Restores the day the nudge was last dismissed, as remembered from an earlier run.
    pub fn restore_dismissed(&mut self, dismissed_on: Option<DayStamp>)
        ensures
            final(self).spec_dismissed_on() == dismissed_on,
            final(self).spec_today() == old(self).spec_today(),
            final(self).spec_complete() == old(self).spec_complete(),
    {
        self.dismissed_on = dismissed_on;
    }

    /// Whether the nudge shows.
    pub fn visible(&self) -> (r: bool)
        ensures
            r == self.spec_is_visible(),
    {
        match self.today {
            Some(today) => !self.complete && match self.dismissed_on {
                Some(d) => d != today,
                None => true,
            },
            None => false,
        }
    }

    /// The day the nudge is about, when it shows.
    pub fn shown_day(&self) -> (r: Option<DayStamp>)
        ensures
            self.spec_is_visible() ==> r == self.spec_today(),
            !self.spec_is_visible() ==> r is None,
    {
        if self.visible() {
            self.today
        } else {
            None
        }
    }
}

impl Default for Nudge {
    fn default() -> (r: Nudge)
        ensures
            r.spec_today() is None,
            !r.spec_complete(),
            r.spec_dismissed_on() is None,
    {
        Nudge::new()
    }
}

/// Whether a day counts as complete for the nudge: its completeness when it could be worked
/// out, else complete, so that a failed lookup never nags.
pub fn evaluate(completeness: Option<&crate::prompts::Completeness>) -> (r: bool)
    ensures
        match completeness {
            Some(c) => r == c.spec_is_complete(),
            None => r,
        },
{
    match completeness {
        Some(c) => c.is_complete(),
        None => true,
    }
}

/// Dismissing hides the nudge for the day evaluated last, whatever else holds.
pub proof fn lemma_dismiss_hides_today(before: Nudge, after: Nudge)
    requires
        after.spec_dismissed_on() == before.spec_today(),
        after.spec_today() == before.spec_today(),
        after.spec_complete() == before.spec_complete(),
    ensures
        !after.spec_is_visible(),
{
}

/// A dismissal on one day does not hide the nudge on another: once a different, incomplete day
/// is evaluated, it shows.
pub proof fn lemma_new_day_shows_again(nudge: Nudge, day: DayStamp)
    requires
        nudge.spec_today() == Some(day),
        !nudge.spec_complete(),
        nudge.spec_dismissed_on() != Some(day),
    ensures
        nudge.spec_is_visible(),
{
}

} // verus!
