//! The captain's log day list: days kept newest first, paged in as the pilot scrolls, the
//! count of pilots active on a day, the banner total of days still flagged, and what Escape
//! closes.

use vstd::prelude::*;
use crate::narrative;
use crate::past;
use crate::prompts::{DayActivity, IndustryEvidence, LossEngagement, SkillEvidence};
use crate::scopes::{lemma_lex_total, lemma_lex_transitive, lex_lt, str_eq, str_lt};

verus! {

/// How many days a page of the day list loads.
pub const DAYS_PAGE: usize = 30;

/// What reaches the log screen: a message for one of its panes, or the request to leave it.
#[derive(Debug)]
pub enum Message {
    Exit,
    /// For the narrative hero of today's entry.
    Narrative(narrative::Message),
    /// For the past day that is open.
    Past(past::Message),
}

/// The dates of a day list, in order.
pub open spec fn day_isos<T>(days: Seq<(String, T)>) -> Seq<Seq<char>> {
    days.map_values(|d: (String, T)| d.0@)
}

/// Strictly newest first: each date after the next in code-point order, which for ISO dates is
/// calendar order.
pub open spec fn newest_first(isos: Seq<Seq<char>>) -> bool {
    forall|i: int, j: int| 0 <= i < j < isos.len() ==> lex_lt(#[trigger] isos[j], #[trigger] isos[i])
}

/// The days loaded into the log's list, newest first, each date once, each with what the view
/// keeps for it.
#[derive(Clone, Debug)]
pub struct DayList<T> {
    days: Vec<(String, T)>,
}

impl<T> DayList<T> {
    pub closed spec fn spec_days(self) -> Seq<(String, T)> {
        self.days@
    }

    /// The dates, newest first.
    pub open spec fn spec_isos(self) -> Seq<Seq<char>> {
        day_isos(self.spec_days())
    }

    /// The list's invariant: its dates are strictly newest first.
    pub open spec fn wf(self) -> bool {
        newest_first(self.spec_isos())
    }

    /// No days loaded.
    pub fn new() -> (r: DayList<T>)
        ensures
            r.wf(),
            r.spec_days().len() == 0,
    {
        DayList { days: Vec::new() }
    }

    /// The days, newest first.
    pub fn days(&self) -> (r: &Vec<(String, T)>)
        ensures
            r@ == self.spec_days(),
    {
        &self.days
    }

    /// The number of days loaded.
    pub fn len(&self) -> (r: usize)
        ensures
            r == self.spec_days().len(),
    {
        self.days.len()
    }

    /// The position of the day `iso`, when loaded.
    pub fn position(&self, iso: &str) -> (r: Option<usize>)
        ensures
            match r {
                Some(k) => k < self.spec_isos().len() && self.spec_isos()[k as int] == iso@,
                None => !self.spec_isos().contains(iso@),
            },
    {
        let mut i: usize = 0;
        while i < self.days.len()
            invariant
                i <= self.days.len(),
                forall|j: int| 0 <= j < i ==> self.spec_isos()[j] != iso@,
            decreases self.days.len() - i,
        {
            if str_eq(self.days[i].0.as_str(), iso) {
                return Some(i);
            }
            i = i + 1;
        }
        None
    }

    /// Whether the day `iso` is loaded.
    pub fn contains(&self, iso: &str) -> (r: bool)
        ensures
            r == self.spec_isos().contains(iso@),
    {
        self.position(iso).is_some()
    }

    /// What the view keeps for the day `iso`, when loaded.
    pub fn get(&self, iso: &str) -> (r: Option<&T>)
        ensures
            match r {
                Some(t) => exists|k: int| 0 <= k < self.spec_days().len() && self.spec_days()[k].0@ == iso@
                    && self.spec_days()[k].1 == *t,
                None => !self.spec_isos().contains(iso@),
            },
    {
        match self.position(iso) {
            Some(k) => {
                assert(self.spec_days()[k as int].0@ == iso@);
                Some(&self.days[k].1)
            },
            None => None,
        }
    }

    /// Adds a day in its place by date, unless its date is already loaded.
    pub fn insert(&mut self, iso: String, value: T) -> (added: bool)
        requires
            old(self).wf(),
        ensures
            final(self).wf(),
            added == !old(self).spec_isos().contains(iso@),
            final(self).spec_isos().to_set() == old(self).spec_isos().to_set().insert(iso@),
            !added ==> final(self).spec_days() == old(self).spec_days(),
            added ==> exists|k: int| 0 <= k <= old(self).spec_days().len() && final(self).spec_days() == old(self).spec_days().insert(k, (iso, value)),
    {
        let ghost before = self.spec_isos();
        let ghost before_days = self.days@;
        let n = self.days.len();
        let mut i: usize = 0;
        while i < n && str_lt(iso.as_str(), self.days[i].0.as_str())
            invariant
                n == self.days@.len(),
                i <= n,
                self.days@ == before_days,
                before == day_isos(before_days),
                forall|k: int| 0 <= k < i ==> lex_lt(iso@, #[trigger] before[k]),
            decreases n - i,
        {
            i = i + 1;
        }
        if i < n && str_eq(self.days[i].0.as_str(), iso.as_str()) {
            assert(before.to_set() =~= before.to_set().insert(iso@)) by {
                assert(before[i as int] == iso@);
            }
            assert(before.contains(iso@)) by {
                assert(before[i as int] == iso@);
            }
            return false;
        }
        proof {
            if i < n {
                lemma_lex_total(before[i as int], iso@);
            }
            assert(!before.contains(iso@)) by {
                if before.contains(iso@) {
                    let k = choose|k: int| 0 <= k < before.len() && before[k] == iso@;
                    if k < i {
                        crate::scopes::lemma_lex_irreflexive(iso@);
                    } else if k > i {
                        assert(lex_lt(before[k], before[i as int]));
                        crate::scopes::lemma_lex_asymmetric(before[i as int], iso@);
                        lemma_lex_transitive(before[k], before[i as int], iso@);
                        crate::scopes::lemma_lex_irreflexive(iso@);
                    }
                }
            }
        }
        let ghost entry = (iso, value);
        self.days.insert(i, (iso, value));
        proof {
            let after = self.spec_isos();
            assert(self.days@ == before_days.insert(i as int, entry));
            assert(after =~= before.insert(i as int, entry.0@));
            assert forall|p: int, q: int| 0 <= p < q < after.len() implies lex_lt(#[trigger] after[q], #[trigger] after[p]) by {
                if q < i {
                } else if q == i {
                    assert(after[p] == before[p]);
                } else if p < i {
                    assert(after[q] == before[q - 1]);
                    assert(lex_lt(iso@, before[p]));
                    if q - 1 >= i {
                        if q - 1 > i {
                            assert(lex_lt(before[q - 1], before[i as int]));
                            lemma_lex_transitive(before[q - 1], before[i as int], iso@);
                        }
                        lemma_lex_transitive(before[q - 1], iso@, before[p]);
                    }
                } else if p == i {
                    assert(after[q] == before[q - 1]);
                    if q - 1 > i {
                        assert(lex_lt(before[q - 1], before[i as int]));
                        lemma_lex_transitive(before[q - 1], before[i as int], iso@);
                    }
                } else {
                    assert(after[p] == before[p - 1]);
                    assert(after[q] == before[q - 1]);
                }
            }
            assert(after.to_set() =~= before.to_set().insert(iso@)) by {
                assert forall|x: Seq<char>| after.to_set().contains(x) implies before.to_set().insert(iso@).contains(x) by {
                    let k = choose|k: int| 0 <= k < after.len() && after[k] == x;
                    if k < i {
                        assert(before[k] == x);
                    } else if k > i {
                        assert(before[k - 1] == x);
                    }
                }
                assert forall|x: Seq<char>| before.to_set().insert(iso@).contains(x) implies after.to_set().contains(x) by {
                    if x == iso@ {
                        assert(after[i as int] == x);
                    } else {
                        let k = choose|k: int| 0 <= k < before.len() && before[k] == x;
                        if k < i {
                            assert(after[k] == x);
                        } else {
                            assert(after[k + 1] == x);
                        }
                    }
                }
            }
        }
        true
    }

    /// Takes in a page of days: each day whose date is not loaded yet joins the list in its
    /// place by date; days already loaded keep what the view had for them.
    pub fn append(&mut self, page: Vec<(String, T)>)
        requires
            old(self).wf(),
        ensures
            final(self).wf(),
            final(self).spec_isos().to_set() == old(self).spec_isos().to_set().union(day_isos(page@).to_set()),
            forall|k: int| 0 <= k < old(self).spec_days().len() ==> final(self).spec_days().contains(#[trigger] old(self).spec_days()[k]),
            forall|k: int| 0 <= k < final(self).spec_days().len() ==> old(self).spec_days().contains(#[trigger] final(self).spec_days()[k])
                || page@.contains(final(self).spec_days()[k]),
    {
        let mut page = page;
        let ghost orig = page@;
        let ghost start = self.spec_isos();
        let ghost start_days = self.spec_days();
        while page.len() > 0
            invariant
                self.wf(),
                page@ == orig.skip(orig.len() - page@.len()),
                page@.len() <= orig.len(),
                self.spec_isos().to_set() == start.to_set().union(day_isos(orig.take(orig.len() - page@.len())).to_set()),
                forall|k: int| 0 <= k < start_days.len() ==> self.spec_days().contains(#[trigger] start_days[k]),
                forall|k: int| 0 <= k < self.spec_days().len() ==> start_days.contains(#[trigger] self.spec_days()[k])
                    || orig.take(orig.len() - page@.len()).contains(self.spec_days()[k]),
            decreases page@.len(),
        {
            let ghost k = orig.len() - page@.len();
            let ghost before_days = self.spec_days();
            let (iso, value) = page.remove(0);
            assert(orig[k] == (iso, value));
            assert(page@ =~= orig.skip(k + 1));
            let added = self.insert(iso, value);
            proof {
                assert(day_isos(orig.take(k + 1)) =~= day_isos(orig.take(k)).push(orig[k].0@));
                day_isos(orig.take(k)).lemma_push_to_set_commute(orig[k].0@);
                assert(self.spec_isos().to_set() =~= start.to_set().union(day_isos(orig.take(k + 1)).to_set()));
                assert forall|j: int| 0 <= j < start_days.len() implies self.spec_days().contains(#[trigger] start_days[j]) by {
                    let w = choose|w: int| 0 <= w < before_days.len() && before_days[w] == start_days[j];
                    if added {
                        let p = choose|p: int| 0 <= p <= before_days.len() && self.spec_days() == before_days.insert(p, orig[k]);
                        if w < p {
                            assert(self.spec_days()[w] == start_days[j]);
                        } else {
                            assert(self.spec_days()[w + 1] == start_days[j]);
                        }
                    } else {
                        assert(self.spec_days()[w] == start_days[j]);
                    }
                }
                assert forall|q: int| 0 <= q < self.spec_days().len() implies start_days.contains(#[trigger] self.spec_days()[q])
                    || orig.take(k + 1).contains(self.spec_days()[q]) by {
                    let d = self.spec_days()[q];
                    if added {
                        let p = choose|p: int| 0 <= p <= before_days.len() && self.spec_days() == before_days.insert(p, orig[k]);
                        if q < p {
                            assert(d == before_days[q]);
                        } else if q == p {
                            assert(d == orig[k]);
                            assert(orig.take(k + 1)[k] == orig[k]);
                        } else {
                            assert(d == before_days[q - 1]);
                        }
                    } else {
                        assert(d == before_days[q]);
                    }
                    if !start_days.contains(d) && d != orig[k] {
                        assert(before_days.contains(d));
                        assert(orig.take(k).contains(d));
                        let w = choose|w: int| 0 <= w < orig.take(k).len() && orig.take(k)[w] == d;
                        assert(orig.take(k + 1)[w] == d);
                    }
                }
            }
        }
        assert(orig.take(orig.len() as int) =~= orig);
    }
}

/// The dates of the next page to load: the first `page_size` of `all_dates` not loaded yet, in
/// the order of `all_dates`.
pub open spec fn next_page_of(all_dates: Seq<Seq<char>>, loaded: Seq<Seq<char>>, page_size: nat) -> Seq<Seq<char>>
    decreases all_dates.len(),
{
    if all_dates.len() == 0 {
        seq![]
    } else {
        let rest = next_page_of(all_dates.drop_last(), loaded, page_size);
        if !loaded.contains(all_dates.last()) && rest.len() < page_size {
            rest.push(all_dates.last())
        } else {
            rest
        }
    }
}

/// The dates of the next page to load.
pub fn next_page<T>(days: &DayList<T>, all_dates: &Vec<String>, page_size: usize) -> (r: Vec<String>)
    ensures
        r@.map_values(|s: String| s@) == next_page_of(all_dates@.map_values(|s: String| s@), days.spec_isos(), page_size as nat),
{
    let ghost all = all_dates@.map_values(|s: String| s@);
    let mut out: Vec<String> = Vec::new();
    let mut i: usize = 0;
    while i < all_dates.len()
        invariant
            i <= all_dates.len(),
            all == all_dates@.map_values(|s: String| s@),
            out@.map_values(|s: String| s@) == next_page_of(all.take(i as int), days.spec_isos(), page_size as nat),
            out@.len() <= page_size,
        decreases all_dates.len() - i,
    {
        assert(all.take(i + 1).drop_last() =~= all.take(i as int));
        assert(all.take(i + 1).last() == all_dates@[i as int]@);
        if out.len() < page_size && !days.contains(all_dates[i].as_str()) {
            let ghost before = out@;
            out.push(all_dates[i].clone());
            assert(out@.map_values(|s: String| s@) =~= before.map_values(|s: String| s@).push(all_dates@[i as int]@));
        }
        i = i + 1;
    }
    assert(all.take(all_dates.len() as int) =~= all);
    out
}

/// Whether scrolling asks for another page: near the end of the list, with no page loading
/// and some dates not loaded yet.
pub fn wants_more(near_end: bool, loading_more: bool, loaded: usize, total: usize) -> (r: bool)
    ensures
        r == (near_end && !loading_more && loaded < total),
{
    near_end && !loading_more && loaded < total
}

/// The number of distinct ids in `ids`.
pub open spec fn distinct_count(ids: Seq<i64>) -> nat {
    ids.to_set().len()
}

fn distinct_ids(activity_ids: &Vec<i64>) -> (r: usize)
    ensures
        r == distinct_count(activity_ids@),
{
    let mut seen: Vec<i64> = Vec::new();
    let mut i: usize = 0;
    while i < activity_ids.len()
        invariant
            i <= activity_ids.len(),
            seen@.no_duplicates(),
            seen@.to_set() == activity_ids@.take(i as int).to_set(),
            seen@.len() <= i,
        decreases activity_ids.len() - i,
    {
        let id = activity_ids[i];
        let mut found = false;
        let mut k: usize = 0;
        while k < seen.len()
            invariant
                k <= seen.len(),
                found == exists|j: int| 0 <= j < k && seen@[j] == id,
            decreases seen.len() - k,
        {
            if seen[k] == id {
                found = true;
            }
            k = k + 1;
        }
        let ghost before = seen@;
        if !found {
            seen.push(id);
        }
        proof {
            assert(activity_ids@.take(i + 1) =~= activity_ids@.take(i as int).push(id));
            activity_ids@.take(i as int).lemma_push_to_set_commute(id);
            if found {
                let j = choose|j: int| 0 <= j < before.len() && before[j] == id;
                assert(before.to_set().contains(id));
                assert(seen@.to_set() =~= before.to_set().insert(id));
            } else {
                before.lemma_push_to_set_commute(id);
                assert forall|p: int, q: int| 0 <= p < q < seen@.len() implies seen@[p] != seen@[q] by {
                    if q == seen@.len() - 1 {
                        assert(seen@[q] == id);
                        assert(before[p] == seen@[p]);
                    }
                }
            }
        }
        i = i + 1;
    }
    proof {
        assert(activity_ids@.take(activity_ids@.len() as int) =~= activity_ids@);
        seen@.unique_seq_to_set();
    }
    seen.len()
}

/// The characters behind a day's activity, in order: who fought, who delivered industry, who
/// finished a skill.
pub open spec fn activity_ids(kills: Seq<KillRecord>, industry: Seq<IndustryEvidence>, skills: Seq<SkillEvidence>) -> Seq<i64> {
    kills.map_values(|k: KillRecord| k.character_id) + industry.map_values(|j: IndustryEvidence| j.character_id)
        + skills.map_values(|s: SkillEvidence| s.character_id)
}

/// How many pilots were active on a day: the distinct characters that fought, delivered
/// industry or finished a skill, or, with no recorded activity, the whole roster.
pub fn pilot_count(
    kills: &Vec<KillRecord>,
    industry: &Vec<IndustryEvidence>,
    skills: &Vec<SkillEvidence>,
    character_ids: &Vec<i64>,
) -> (r: usize)
    ensures
        activity_ids(kills@, industry@, skills@).len() == 0 ==> r == character_ids@.len(),
        activity_ids(kills@, industry@, skills@).len() > 0 ==> r == distinct_count(activity_ids(kills@, industry@, skills@)),
{
    let mut ids: Vec<i64> = Vec::new();
    let mut i: usize = 0;
    while i < kills.len()
        invariant
            i <= kills@.len(),
            ids@ == kills@.take(i as int).map_values(|k: KillRecord| k.character_id),
        decreases kills.len() - i,
    {
        ids.push(kills[i].character_id);
        assert(kills@.take(i + 1).map_values(|k: KillRecord| k.character_id)
            =~= kills@.take(i as int).map_values(|k: KillRecord| k.character_id).push(kills@[i as int].character_id));
        i = i + 1;
    }
    assert(kills@.take(kills@.len() as int) =~= kills@);
    let ghost fought = ids@;
    let mut i: usize = 0;
    while i < industry.len()
        invariant
            i <= industry@.len(),
            ids@ == fought + industry@.take(i as int).map_values(|j: IndustryEvidence| j.character_id),
        decreases industry.len() - i,
    {
        ids.push(industry[i].character_id);
        assert(industry@.take(i + 1).map_values(|j: IndustryEvidence| j.character_id)
            =~= industry@.take(i as int).map_values(|j: IndustryEvidence| j.character_id).push(industry@[i as int].character_id));
        i = i + 1;
    }
    assert(industry@.take(industry@.len() as int) =~= industry@);
    let ghost built = ids@;
    let mut i: usize = 0;
    while i < skills.len()
        invariant
            i <= skills@.len(),
            ids@ == built + skills@.take(i as int).map_values(|s: SkillEvidence| s.character_id),
        decreases skills.len() - i,
    {
        ids.push(skills[i].character_id);
        assert(skills@.take(i + 1).map_values(|s: SkillEvidence| s.character_id)
            =~= skills@.take(i as int).map_values(|s: SkillEvidence| s.character_id).push(skills@[i as int].character_id));
        i = i + 1;
    }
    assert(skills@.take(skills@.len() as int) =~= skills@);
    assert(ids@ =~= activity_ids(kills@, industry@, skills@));
    if ids.len() == 0 {
        character_ids.len()
    } else {
        distinct_ids(&ids)
    }
}

/// The banner total after marking one day complete: one fewer when that day was loaded and
/// still flagged, never below zero.
pub fn flagged_after_marking(day_complete: Option<bool>, flagged_total: usize) -> (r: usize)
    ensures
        day_complete == Some(false) ==> r == (if flagged_total == 0 { 0 } else { flagged_total - 1 }),
        day_complete != Some(false) ==> r == flagged_total,
{
    match day_complete {
        Some(false) => if flagged_total == 0 {
            0
        } else {
            flagged_total - 1
        },
        _ => flagged_total,
    }
}

/// What Escape closes on the log screen.
#[derive(Clone, Copy, Debug, PartialEq, Eq, Structural)]
pub enum EscapeAction {
    /// Close the jump-to-day dropdown.
    CloseJump,
    /// Let the standing-orders board close what it has open.
    StandingOrders,
    /// Leave the log.
    Exit,
}

/// What Escape closes: the jump dropdown first, then whatever the standing-orders board has
/// open while it shows, else the log itself.
pub fn escape_dismiss(jump_open: bool, board_mode: bool, board_dismisses: bool) -> (r: EscapeAction)
    ensures
        jump_open ==> r == EscapeAction::CloseJump,
        !jump_open && board_mode && board_dismisses ==> r == EscapeAction::StandingOrders,
        !jump_open && !(board_mode && board_dismisses) ==> r == EscapeAction::Exit,
{
    if jump_open {
        EscapeAction::CloseJump
    } else if board_mode && board_dismisses {
        EscapeAction::StandingOrders
    } else {
        EscapeAction::Exit
    }
}

/// What selecting a day in the list does.
#[derive(Clone, Debug)]
pub enum Selection {
    /// Show the loaded past day.
    ShowPast(String),
    /// Load the day first.
    LoadDay(String),
    /// Back to today.
    Today,
}

/// What selecting `day` does: today when none, the past day when it is loaded, else a load.
pub fn select_day<T>(days: &DayList<T>, day: Option<String>) -> (r: Selection)
    ensures
        match day {
            None => r is Today,
            Some(iso) => if days.spec_isos().contains(iso@) {
                r matches Selection::ShowPast(s) && s@ == iso@
            } else {
                r matches Selection::LoadDay(s) && s@ == iso@
            },
        },
{
    match day {
        None => Selection::Today,
        Some(iso) => if days.contains(iso.as_str()) {
            Selection::ShowPast(iso)
        } else {
            Selection::LoadDay(iso)
        },
    }
}

/// A killmail of the day: the character, the killmail and whether it was a kill or a loss.
#[derive(Clone, Copy, Debug)]
pub struct KillRecord {
    pub character_id: i64,
    pub killmail_id: i64,
    pub is_kill: bool,
}

/// The losses among the day's killmails, in order.
pub open spec fn losses_of(kills: Seq<KillRecord>) -> Seq<LossEngagement>
    decreases kills.len(),
{
    if kills.len() == 0 {
        seq![]
    } else if kills.last().is_kill {
        losses_of(kills.drop_last())
    } else {
        losses_of(kills.drop_last()).push(
            LossEngagement { character_id: kills.last().character_id, killmail_id: kills.last().killmail_id },
        )
    }
}

/// What the day's prompts and completeness read of its activity: every killmail counts as an
/// engagement, the losses are listed for their debriefs, and the deliveries and finished
/// skills are counted and kept as evidence.
pub fn day_activity(kills: &Vec<KillRecord>, industry: Vec<IndustryEvidence>, skills: Vec<SkillEvidence>) -> (r: DayActivity)
    ensures
        r.engagement_count == kills@.len() as u32,
        r.losses@ == losses_of(kills@),
        r.industry_count == industry@.len() as u32,
        r.industry@ == industry@,
        r.skill_count == skills@.len() as u32,
        r.skills@ == skills@,
{
    let mut losses: Vec<LossEngagement> = Vec::new();
    let mut i: usize = 0;
    while i < kills.len()
        invariant
            i <= kills.len(),
            losses@ == losses_of(kills@.take(i as int)),
        decreases kills.len() - i,
    {
        assert(kills@.take(i + 1).drop_last() =~= kills@.take(i as int));
        let k = kills[i];
        if !k.is_kill {
            losses.push(LossEngagement { character_id: k.character_id, killmail_id: k.killmail_id });
        }
        i = i + 1;
    }
    assert(kills@.take(kills.len() as int) =~= kills@);
    let engagement_count = kills.len() as u32;
    let industry_count = industry.len() as u32;
    let skill_count = skills.len() as u32;
    DayActivity { engagement_count, industry, industry_count, losses, skill_count, skills }
}

/// The texts of a list of strings.
pub open spec fn texts(v: Seq<String>) -> Seq<Seq<char>> {
    v.map_values(|s: String| s@)
}

fn contains_text(v: &Vec<String>, s: &str) -> (r: bool)
    ensures
        r == texts(v@).contains(s@),
{
    let mut i: usize = 0;
    while i < v.len()
        invariant
            i <= v.len(),
            forall|j: int| 0 <= j < i ==> v@[j]@ != s@,
        decreases v.len() - i,
    {
        if str_eq(v[i].as_str(), s) {
            assert(texts(v@)[i as int] == s@);
            return true;
        }
        i = i + 1;
    }
    proof {
        if texts(v@).contains(s@) {
            let j = choose|j: int| 0 <= j < texts(v@).len() && texts(v@)[j] == s@;
            assert(v@[j]@ == s@);
        }
    }
    false
}

/// The log's day list always holds today: the dates as they are when today is among them,
/// else today first.
pub fn with_today(day_isos: Vec<String>, today_iso: String) -> (r: Vec<String>)
    ensures
        texts(day_isos@).contains(today_iso@) ==> r@ == day_isos@,
        !texts(day_isos@).contains(today_iso@) ==> r@ == seq![today_iso] + day_isos@,
{
    if contains_text(&day_isos, today_iso.as_str()) {
        day_isos
    } else {
        let mut out = day_isos;
        out.insert(0, today_iso);
        proof {
            assert(out@ =~= seq![today_iso] + day_isos@);
        }
        out
    }
}

/// The banner's count of flagged days as loaded: the incomplete dates the store reports, one
/// more when today is flagged here but not among them.
pub fn initial_flagged_total(incomplete: &Vec<String>, today_iso: &str, today_flagged: bool) -> (r: usize)
    requires
        incomplete@.len() < usize::MAX,
    ensures
        r == incomplete@.len() + (if today_flagged && !texts(incomplete@).contains(today_iso@) { 1int } else { 0int }),
{
    if today_flagged && !contains_text(incomplete, today_iso) {
        incomplete.len() + 1
    } else {
        incomplete.len()
    }
}

/// The dates that marking everything complete stores as complete: the incomplete dates the
/// store reports, and today after them when it is not among them.
pub fn dates_to_mark(incomplete: Vec<String>, today_iso: String) -> (r: Vec<String>)
    ensures
        texts(incomplete@).contains(today_iso@) ==> r@ == incomplete@,
        !texts(incomplete@).contains(today_iso@) ==> r@ == incomplete@.push(today_iso),
{
    if contains_text(&incomplete, today_iso.as_str()) {
        incomplete
    } else {
        let mut out = incomplete;
        out.push(today_iso);
        out
    }
}

/// The number of kills among a day's killmails.
pub open spec fn kill_count(kills: Seq<KillRecord>) -> nat
    decreases kills.len(),
{
    if kills.len() == 0 {
        0
    } else {
        kill_count(kills.drop_last()) + (if kills.last().is_kill { 1nat } else { 0nat })
    }
}

/// A day's combat tally: how many of its killmails were kills and how many were losses.
pub fn combat_tally(kills: &Vec<KillRecord>) -> (r: (usize, usize))
    ensures
        r.0 == kill_count(kills@),
        r.1 == kills@.len() - kill_count(kills@),
{
    let mut k: usize = 0;
    let mut l: usize = 0;
    let mut i: usize = 0;
    while i < kills.len()
        invariant
            i <= kills.len(),
            k == kill_count(kills@.take(i as int)),
            k + l == i,
        decreases kills.len() - i,
    {
        assert(kills@.take(i + 1).drop_last() =~= kills@.take(i as int));
        if kills[i].is_kill {
            k = k + 1;
        } else {
            l = l + 1;
        }
        i = i + 1;
    }
    assert(kills@.take(kills.len() as int) =~= kills@);
    (k, l)
}

} // verus!
