//! The debrief of one killmail: its outcome, the form that captures what happened, and the
//! saved report it shows once stored.

use vstd::prelude::*;
use crate::calendar::{format_rfc3339_stamp, rfc3339_stamp};
use crate::log_model::KillmailReport;
use crate::scopes::str_eq;
use crate::text::{blank, is_blank, non_blank, string_from_chars, trimmed, trimmed_chars};

verus! {

/// How an engagement went, as the pilot judges it.
#[derive(Clone, Copy, Debug, PartialEq, Eq, Structural)]
pub enum Outcome {
    Clean,
    Costly,
    Learning,
}

/// The name an outcome is stored under.
pub open spec fn spec_outcome_name(outcome: Outcome) -> Seq<char> {
    match outcome {
        Outcome::Clean => "clean"@,
        Outcome::Costly => "costly"@,
        Outcome::Learning => "learning"@,
    }
}

/// The outcome a stored name stands for; anything unknown reads as clean.
pub open spec fn spec_outcome_from_db(value: Seq<char>) -> Outcome {
    if value == "costly"@ {
        Outcome::Costly
    } else if value == "learning"@ {
        Outcome::Learning
    } else {
        Outcome::Clean
    }
}

impl Default for Outcome {
    fn default() -> (r: Outcome)
        ensures
            r == Outcome::Clean,
    {
        Outcome::Clean
    }
}

impl Outcome {
    /// The outcomes in the order the form offers them.
    pub const ORDER: [Outcome; 3] = [Outcome::Clean, Outcome::Costly, Outcome::Learning];

    /// The outcome a stored name stands for; anything unknown reads as clean.
    pub fn from_db(value: &str) -> (r: Outcome)
        ensures
            r == spec_outcome_from_db(value@),
    {
        if str_eq(value, "costly") {
            Outcome::Costly
        } else if str_eq(value, "learning") {
            Outcome::Learning
        } else {
            Outcome::Clean
        }
    }

    /// The name the outcome is stored under.
    pub fn as_str(self) -> (r: &'static str)
        ensures
            r@ == spec_outcome_name(self),
    {
        match self {
            Outcome::Clean => "clean",
            Outcome::Costly => "costly",
            Outcome::Learning => "learning",
        }
    }

    /// The i18n key of the outcome's label.
    pub fn label_key(self) -> (r: &'static str)
        ensures
            r@ == (match self {
                Outcome::Clean => "captains_log.km_report.outcome_clean"@,
                Outcome::Costly => "captains_log.km_report.outcome_costly"@,
                Outcome::Learning => "captains_log.km_report.outcome_learning"@,
            }),
    {
        match self {
            Outcome::Clean => "captains_log.km_report.outcome_clean",
            Outcome::Costly => "captains_log.km_report.outcome_costly",
            Outcome::Learning => "captains_log.km_report.outcome_learning",
        }
    }
}

/// Storing an outcome and reading it back gives the same outcome.
pub proof fn lemma_outcome_round_trip(outcome: Outcome)
    ensures
        spec_outcome_from_db(spec_outcome_name(outcome)) == outcome,
{
    reveal_strlit("clean");
    reveal_strlit("costly");
    reveal_strlit("learning");
    assert("clean"@.len() == 5);
    assert("costly"@.len() == 6);
    assert("learning"@.len() == 8);
}

/// The fields a debrief is stored with.
#[derive(Clone, Debug)]
pub struct ReportInput {
    pub different: Option<String>,
    pub happened: String,
    pub outcome: String,
    pub takeaway: Option<String>,
}

/// A stored debrief as the read view shows it.
#[derive(Clone, Debug)]
pub struct SavedReport {
    pub different: Option<String>,
    pub happened: String,
    pub outcome: Outcome,
    pub takeaway: Option<String>,
    pub updated_at: String,
}

/// The text of an optional field.
pub open spec fn opt_view(value: Option<String>) -> Option<Seq<char>> {
    match value {
        Some(s) => Some(s@),
        None => None,
    }
}

/// The trimmed text of a field, `None` when it is blank.
pub open spec fn spec_non_blank(value: Seq<char>) -> Option<Seq<char>> {
    if blank(value) {
        None
    } else {
        Some(trimmed(value))
    }
}

fn clone_opt(value: &Option<String>) -> (r: Option<String>)
    ensures
        opt_view(r) == opt_view(*value),
{
    match value {
        Some(s) => Some(s.clone()),
        None => None,
    }
}

impl SavedReport {
    /// The report just saved from `input`, stamped `updated_at`.
    pub fn from_input(input: &ReportInput, updated_at: String) -> (r: SavedReport)
        ensures
            opt_view(r.different) == opt_view(input.different),
            r.happened@ == input.happened@,
            r.outcome == spec_outcome_from_db(input.outcome@),
            opt_view(r.takeaway) == opt_view(input.takeaway),
            r.updated_at@ == updated_at@,
    {
        SavedReport {
            different: clone_opt(&input.different),
            happened: input.happened.clone(),
            outcome: Outcome::from_db(input.outcome.as_str()),
            takeaway: clone_opt(&input.takeaway),
            updated_at,
        }
    }

    /// The report as it was stored.
    pub fn from_model(report: &KillmailReport) -> (r: SavedReport)
        ensures
            opt_view(r.different) == opt_view(report.different),
            r.happened@ == report.happened@,
            r.outcome == spec_outcome_from_db(report.outcome@),
            opt_view(r.takeaway) == opt_view(report.takeaway),
            r.updated_at@ == report.updated_at@,
    {
        SavedReport {
            different: clone_opt(&report.different),
            happened: report.happened.clone(),
            outcome: Outcome::from_db(report.outcome.as_str()),
            takeaway: clone_opt(&report.takeaway),
            updated_at: report.updated_at.clone(),
        }
    }
}

/// The text of an optional field, empty when absent.
pub open spec fn text_or_empty(value: Option<String>) -> Seq<char> {
    match value {
        Some(s) => s@,
        None => Seq::<char>::empty(),
    }
}

/// The form's four fields are the same in both panels.
pub open spec fn same_form(a: State, b: State) -> bool {
    &&& a.spec_outcome() == b.spec_outcome()
    &&& a.spec_happened() == b.spec_happened()
    &&& a.spec_different() == b.spec_different()
    &&& a.spec_takeaway() == b.spec_takeaway()
}

/// The panel shows the stored report `rep`: the form holds its fields, the read view its
/// values, and the form is closed.
pub open spec fn shows_report(after: State, rep: KillmailReport) -> bool {
    &&& after.spec_outcome() == spec_outcome_from_db(rep.outcome@)
    &&& after.spec_happened() == rep.happened@
    &&& after.spec_different() == text_or_empty(rep.different)
    &&& after.spec_takeaway() == text_or_empty(rep.takeaway)
    &&& after.spec_saved() matches Some(s) && s.happened@ == rep.happened@
        && s.outcome == spec_outcome_from_db(rep.outcome@) && opt_view(s.different) == opt_view(rep.different)
        && opt_view(s.takeaway) == opt_view(rep.takeaway) && s.updated_at@ == rep.updated_at@
    &&& !after.spec_editing()
}

/// A load came back with `report`: a stored report is shown; none opens the form and keeps
/// everything else.
pub open spec fn loaded(before: State, report: Option<KillmailReport>, after: State) -> bool {
    &&& after.spec_character_id() == before.spec_character_id()
    &&& after.spec_killmail_id() == before.spec_killmail_id()
    &&& match report {
        Some(rep) => shows_report(after, rep),
        None => after.spec_editing() && same_form(before, after) && after.spec_saved() == before.spec_saved(),
    }
}

/// The form was opened: filled from the stored report when there is one, else as it was.
pub open spec fn edit_opened(before: State, after: State) -> bool {
    &&& after.spec_editing()
    &&& after.spec_saved() == before.spec_saved()
    &&& after.spec_character_id() == before.spec_character_id()
    &&& after.spec_killmail_id() == before.spec_killmail_id()
    &&& match before.spec_saved() {
        Some(s) => {
            &&& after.spec_outcome() == s.outcome
            &&& after.spec_happened() == s.happened@
            &&& after.spec_different() == text_or_empty(s.different)
            &&& after.spec_takeaway() == text_or_empty(s.takeaway)
        },
        None => same_form(before, after),
    }
}

/// A save at time `now`: when the form can be stored, its input is returned, the stored report
/// becomes what was entered, stamped `now`, and the form closes; otherwise nothing changes.
pub open spec fn committed(before: State, now: Seq<char>, after: State, r: Option<ReportInput>) -> bool {
    &&& after.spec_character_id() == before.spec_character_id()
    &&& after.spec_killmail_id() == before.spec_killmail_id()
    &&& same_form(before, after)
    &&& match r {
        Some(input) => {
            &&& spec_build_input(before.spec_happened(), before.spec_different(), before.spec_takeaway(), before.spec_outcome())
                == Some(input_view(input))
            &&& !after.spec_editing()
            &&& after.spec_saved() matches Some(s) && s.happened@ == input.happened@
                && s.outcome == before.spec_outcome() && opt_view(s.different) == opt_view(input.different)
                && opt_view(s.takeaway) == opt_view(input.takeaway) && s.updated_at@ == now
        },
        None => {
            &&& spec_build_input(before.spec_happened(), before.spec_different(), before.spec_takeaway(), before.spec_outcome()) is None
            &&& after.spec_editing() == before.spec_editing()
            &&& after.spec_saved() == before.spec_saved()
        },
    }
}

/// Only the form's open state may differ; the ids, the fields and the stored report stay.
pub open spec fn same_but_editing(before: State, after: State) -> bool {
    &&& after.spec_character_id() == before.spec_character_id()
    &&& after.spec_killmail_id() == before.spec_killmail_id()
    &&& same_form(before, after)
    &&& after.spec_saved() == before.spec_saved()
}

/// One field of the form was replaced; everything else stays.
pub open spec fn field_set(before: State, after: State) -> bool {
    &&& after.spec_character_id() == before.spec_character_id()
    &&& after.spec_killmail_id() == before.spec_killmail_id()
    &&& after.spec_saved() == before.spec_saved()
    &&& after.spec_editing() == before.spec_editing()
}

/// How a message moves a debrief panel from `before` to `after`, returning `r`.
pub open spec fn stepped(before: State, message: Message, after: State, r: Option<ReportInput>) -> bool {
    match message {
        Message::Cancelled => r is None && same_but_editing(before, after)
            && after.spec_editing() == (before.spec_editing() && before.spec_saved() is None),
        Message::DifferentEdited(text) => r is None && field_set(before, after) && after.spec_different() == text@
            && after.spec_outcome() == before.spec_outcome() && after.spec_happened() == before.spec_happened()
            && after.spec_takeaway() == before.spec_takeaway(),
        Message::HappenedEdited(text) => r is None && field_set(before, after) && after.spec_happened() == text@
            && after.spec_outcome() == before.spec_outcome() && after.spec_different() == before.spec_different()
            && after.spec_takeaway() == before.spec_takeaway(),
        Message::TakeawayEdited(text) => r is None && field_set(before, after) && after.spec_takeaway() == text@
            && after.spec_outcome() == before.spec_outcome() && after.spec_happened() == before.spec_happened()
            && after.spec_different() == before.spec_different(),
        Message::OutcomeSelected(o) => r is None && field_set(before, after) && after.spec_outcome() == o
            && after.spec_happened() == before.spec_happened() && after.spec_different() == before.spec_different()
            && after.spec_takeaway() == before.spec_takeaway(),
        Message::EditRequested => r is None && edit_opened(before, after),
        Message::Loaded(report) => r is None && loaded(before, report, after),
        Message::SaveRequested(now) => committed(before, now@, after, r),
        Message::Saved => r is None && same_but_editing(before, after) && after.spec_editing() == before.spec_editing(),
    }
}

/// The debrief panel of one killmail for one character: the form's fields, whether the form
/// is open, and the stored report once there is one.
#[derive(Clone, Debug)]
pub struct State {
    character_id: i64,
    different: String,
    editing: bool,
    happened: String,
    is_kill: bool,
    killmail_id: i64,
    outcome: Outcome,
    saved: Option<SavedReport>,
    takeaway: String,
}

/// What reaches a debrief panel. The editors report their whole new text.
#[derive(Clone, Debug)]
pub enum Message {
    Cancelled,
    DifferentEdited(String),
    EditRequested,
    HappenedEdited(String),
    Loaded(Option<KillmailReport>),
    OutcomeSelected(Outcome),
    /// Save the form; the time to stamp the saved report with.
    SaveRequested(String),
    Saved,
    TakeawayEdited(String),
}

/// The form's fields as they would be stored: `None` when what happened is blank, else the
/// trimmed text of what happened, the outcome's stored name, and the trimmed optional fields
/// (`None` when blank).
pub open spec fn spec_build_input(
    happened: Seq<char>,
    different: Seq<char>,
    takeaway: Seq<char>,
    outcome: Outcome,
) -> Option<(Seq<char>, Option<Seq<char>>, Seq<char>, Option<Seq<char>>)> {
    if blank(happened) {
        None
    } else {
        Some((trimmed(happened), spec_non_blank(different), spec_outcome_name(outcome), spec_non_blank(takeaway)))
    }
}

/// An input's fields: what happened, what to do differently, the outcome name, the takeaway.
pub open spec fn input_view(input: ReportInput) -> (Seq<char>, Option<Seq<char>>, Seq<char>, Option<Seq<char>>) {
    (input.happened@, opt_view(input.different), input.outcome@, opt_view(input.takeaway))
}

fn text_of(value: &Option<String>) -> (r: String)
    ensures
        r@ == (match value {
            Some(s) => s@,
            None => Seq::<char>::empty(),
        }),
{
    match value {
        Some(s) => s.clone(),
        None => String::new(),
    }
}

impl State {
    pub closed spec fn spec_character_id(self) -> i64 {
        self.character_id
    }

    pub closed spec fn spec_killmail_id(self) -> i64 {
        self.killmail_id
    }

    pub closed spec fn spec_editing(self) -> bool {
        self.editing
    }

    pub closed spec fn spec_outcome(self) -> Outcome {
        self.outcome
    }

    pub closed spec fn spec_happened(self) -> Seq<char> {
        self.happened@
    }

    pub closed spec fn spec_different(self) -> Seq<char> {
        self.different@
    }

    pub closed spec fn spec_takeaway(self) -> Seq<char> {
        self.takeaway@
    }

    pub closed spec fn spec_saved(self) -> Option<SavedReport> {
        self.saved
    }

    /// An open, empty form; a kill starts clean and a loss costly.
    pub fn new(character_id: i64, killmail_id: i64, is_kill: bool) -> (r: State)
        ensures
            r.spec_character_id() == character_id,
            r.spec_killmail_id() == killmail_id,
            r.spec_editing(),
            r.spec_outcome() == (if is_kill { Outcome::Clean } else { Outcome::Costly }),
            r.spec_happened().len() == 0 && r.spec_different().len() == 0 && r.spec_takeaway().len() == 0,
            r.spec_saved() is None,
    {
        State {
            character_id,
            different: String::new(),
            editing: true,
            happened: String::new(),
            is_kill,
            killmail_id,
            outcome: if is_kill { Outcome::Clean } else { Outcome::Costly },
            saved: None,
            takeaway: String::new(),
        }
    }

    /// The character whose engagement this is.
    pub fn character_id(&self) -> (r: i64)
        ensures
            r == self.spec_character_id(),
    {
        self.character_id
    }

    /// The killmail debriefed.
    pub fn killmail_id(&self) -> (r: i64)
        ensures
            r == self.spec_killmail_id(),
    {
        self.killmail_id
    }

    /// The outcome the form has selected.
    pub fn outcome(&self) -> (r: Outcome)
        ensures
            r == self.spec_outcome(),
    {
        self.outcome
    }

    /// Whether the form is open.
    pub fn is_editing(&self) -> (r: bool)
        ensures
            r == self.spec_editing(),
    {
        self.editing
    }

    /// The stored report, once there is one.
    pub fn saved(&self) -> (r: Option<&SavedReport>)
        ensures
            r matches Some(s) ==> self.spec_saved() == Some(*s),
            r is None ==> self.spec_saved() is None,
    {
        match &self.saved {
            Some(s) => Some(s),
            None => None,
        }
    }

    /// Whether the panel shows the stored report rather than the form.
    pub fn shows_saved(&self) -> (r: bool)
        ensures
            r == (self.spec_saved() is Some && !self.spec_editing()),
    {
        self.saved.is_some() && !self.editing
    }

    /// A load came back: a stored report fills the form and closes it; none leaves the form
    /// open.
    pub fn apply_loaded(&mut self, report: Option<KillmailReport>)
        ensures
            loaded(*old(self), report, *final(self)),
    {
        match report {
            Some(report) => {
                self.outcome = Outcome::from_db(report.outcome.as_str());
                self.happened = report.happened.clone();
                self.different = text_of(&report.different);
                self.takeaway = text_of(&report.takeaway);
                self.saved = Some(SavedReport::from_model(&report));
                self.editing = false;
            },
            None => {
                self.editing = true;
            },
        }
    }

    /// Opens the form, filled from the stored report when there is one.
    pub fn begin_edit(&mut self)
        ensures
            edit_opened(*old(self), *final(self)),
    {
        match &self.saved {
            Some(saved) => {
                let outcome = saved.outcome;
                let happened = saved.happened.clone();
                let different = text_of(&saved.different);
                let takeaway = text_of(&saved.takeaway);
                self.outcome = outcome;
                self.happened = happened;
                self.different = different;
                self.takeaway = takeaway;
            },
            None => {},
        }
        self.editing = true;
    }

    /// The form as it would be stored, `None` while what happened is blank.
    pub fn build_input(&self) -> (r: Option<ReportInput>)
        ensures
            match r {
                Some(input) => spec_build_input(self.spec_happened(), self.spec_different(), self.spec_takeaway(), self.spec_outcome())
                    == Some(input_view(input)),
                None => spec_build_input(self.spec_happened(), self.spec_different(), self.spec_takeaway(), self.spec_outcome()) is None,
            },
    {
        let happened = trimmed_chars(self.happened.as_str());
        proof {
            crate::text::lemma_trimmed_empty_iff_blank(self.happened@);
        }
        if happened.len() == 0 {
            return None;
        }
        Some(ReportInput {
            different: non_blank(self.different.as_str()),
            happened: string_from_chars(&happened),
            outcome: self.outcome.as_str().to_owned(),
            takeaway: non_blank(self.takeaway.as_str()),
        })
    }

    /// Whether the form can be saved: what happened is not blank.
    pub fn can_save(&self) -> (r: bool)
        ensures
            r == !blank(self.spec_happened()),
    {
        !is_blank(self.happened.as_str())
    }

    /// Saves the form: when it can be saved, the stored report becomes what was entered,
    /// stamped `now`, the form closes, and the input to store is returned; otherwise nothing
    /// changes.
    pub fn commit(&mut self, now: String) -> (r: Option<ReportInput>)
        ensures
            committed(*old(self), now@, *final(self), r),
    {
        match self.build_input() {
            None => None,
            Some(input) => {
                proof {
                    lemma_outcome_round_trip(self.outcome);
                }
                self.saved = Some(SavedReport::from_input(&input, now));
                self.editing = false;
                Some(input)
            },
        }
    }
}

/// The panel's next state, and the debrief to store when a save went through.
///
/// A cancel closes the form when a stored report exists; an edit request reopens it filled from
/// that report; a load applies the stored report; a save stores the form when what happened is
/// not blank; the editors and the outcome picker replace their field.
pub fn update(state: &mut State, message: Message) -> (r: Option<ReportInput>)
    ensures
        stepped(*old(state), message, *final(state), r),
{
    match message {
        Message::Cancelled => {
            if state.saved.is_some() {
                state.editing = false;
            }
            None
        },
        Message::DifferentEdited(text) => {
            state.different = text;
            None
        },
        Message::EditRequested => {
            state.begin_edit();
            None
        },
        Message::HappenedEdited(text) => {
            state.happened = text;
            None
        },
        Message::Loaded(report) => {
            state.apply_loaded(report);
            None
        },
        Message::OutcomeSelected(outcome) => {
            state.outcome = outcome;
            None
        },
        Message::SaveRequested(now) => state.commit(now),
        Message::Saved => None,
        Message::TakeawayEdited(text) => {
            state.takeaway = text;
            None
        },
    }
}

/// When a debrief was last saved, as its card shows it: chrono's reading of the stored time,
/// else the stored text itself.
pub fn stamp_or_raw(stamp: Option<String>, updated_at: &str) -> (r: String)
    ensures
        r@ == (match stamp {
            Some(s) => s@,
            None => updated_at@,
        }),
{
    match stamp {
        Some(s) => s,
        None => updated_at.to_owned(),
    }
}

/// When a debrief was last saved, such as `6 Jul · 01:00 AM`; a time chrono cannot read is
/// shown as stored.
pub fn logged_stamp(updated_at: &str) -> (r: String)
    ensures
        r@ == (match rfc3339_stamp(updated_at@) {
            Some(s) => s,
            None => updated_at@,
        }),
{
    stamp_or_raw(format_rfc3339_stamp(updated_at), updated_at)
}

/// A saved debrief reads back unchanged: when the input a save returned is stored and loaded
/// into a fresh panel, that panel shows the outcome picked and the trimmed texts typed, with
/// the form closed.
pub proof fn lemma_saved_debrief_reloads(
    before: State,
    now: Seq<char>,
    after: State,
    input: ReportInput,
    stored: KillmailReport,
    fresh: State,
    reloaded: State,
)
    requires
        committed(before, now, after, Some(input)),
        stored.happened@ == input.happened@,
        stored.outcome@ == input.outcome@,
        opt_view(stored.different) == opt_view(input.different),
        opt_view(stored.takeaway) == opt_view(input.takeaway),
        loaded(fresh, Some(stored), reloaded),
    ensures
        !reloaded.spec_editing(),
        reloaded.spec_outcome() == before.spec_outcome(),
        reloaded.spec_happened() == trimmed(before.spec_happened()),
        reloaded.spec_saved() matches Some(s) && s.outcome == before.spec_outcome()
            && s.happened@ == trimmed(before.spec_happened())
            && opt_view(s.different) == spec_non_blank(before.spec_different())
            && opt_view(s.takeaway) == spec_non_blank(before.spec_takeaway()),
{
    lemma_outcome_round_trip(before.spec_outcome());
}

} // verus!
