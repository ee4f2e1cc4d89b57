//! A past day's log: which fields show and which are flagged missing, the inline editor for
//! one answer at a time, and the debriefs of the day's engagements.

use vstd::prelude::*;
use crate::km_report;
use crate::log_book;
use crate::log_model::{lookup_answer, AnswerKey, CaptainsLog};
use crate::narrative;
use crate::prompts::{answer_of, Completeness, DisplayText, DisplayTextView, Prompt, PromptGroup, PromptView};
use crate::scopes::str_eq;
use crate::text::{blank, is_blank, non_blank, push_str, string_from_chars, trimmed};

verus! {

/// An engagement of the day whose debrief the past view shows.
#[derive(Clone, Copy, Debug)]
pub struct DebriefKey {
    pub character_id: i64,
    pub killmail_id: i64,
    pub is_kill: bool,
}

/// What reaches a past day's view. The editor reports its whole new text.
#[derive(Debug)]
pub enum Message {
    Cancelled,
    DraftEdited(String),
    EditRequested(String),
    Narrative(narrative::Message),
    Report(usize, km_report::Message),
    SaveRequested(String),
    /// The answer `id` was stored as the value (`None` when cleared), or the save failed.
    Saved(String, Result<Option<String>, String>),
}

/// What a message asks the caller to do.
#[derive(Debug)]
pub enum Effect {
    Nothing,
    /// Store the answer to question `id` (`None` clears it).
    SaveAnswer { id: String, value: Option<String> },
    /// Store the day's narrative (`None` clears it).
    SaveNarrative(Option<String>),
    /// Store engagement `index`'s debrief.
    SaveReport { index: usize, input: km_report::ReportInput },
}

/// A past day's view.
#[derive(Debug)]
pub struct State {
    completeness: Completeness,
    date: String,
    debriefs: Vec<km_report::State>,
    draft: String,
    editing: Option<String>,
    log: Option<CaptainsLog>,
    narrative: narrative::State,
    prompts: Vec<Prompt>,
}

/// The label a field shows: the pilot's literal, else the catalog's past-view key for a catalog
/// question, else the question's own key, else nothing.
pub open spec fn spec_field_label(p: PromptView) -> DisplayTextView {
    if p.label.len() > 0 {
        DisplayTextView::Literal(p.label)
    } else {
        match p.key {
            Some(k) => DisplayTextView::Key("captains_log.past.label_"@ + k.name()),
            None => if p.i18n_key.len() == 0 {
                DisplayTextView::Literal(seq![])
            } else {
                DisplayTextView::Key(p.i18n_key)
            },
        }
    }
}

/// The label a field shows.
pub fn field_label(prompt: &Prompt) -> (r: DisplayText)
    ensures
        r@ == spec_field_label(prompt@),
{
    if !prompt.label.as_str().is_empty() {
        return DisplayText::Literal(prompt.label.clone());
    }
    match prompt.key {
        Some(k) => {
            let mut v: Vec<char> = Vec::new();
            push_str(&mut v, "captains_log.past.label_");
            push_str(&mut v, k.as_key());
            DisplayText::Key(string_from_chars(&v))
        },
        None => if prompt.i18n_key.as_str().is_empty() {
            DisplayText::Literal(String::new())
        } else {
            DisplayText::Key(prompt.i18n_key.clone())
        },
    }
}

/// The authored answer of a field: its text when stored and not blank.
pub open spec fn authored(log: Option<CaptainsLog>, p: PromptView) -> Option<Seq<char>> {
    match log {
        Some(l) => match answer_of(l, p.id, p.key) {
            Some(t) => if blank(t@) {
                None
            } else {
                Some(t@)
            },
            None => None,
        },
        None => None,
    }
}

/// The first prompt with id `id`.
pub open spec fn prompt_with(prompts: Seq<Prompt>, id: Seq<char>) -> Option<Prompt>
    decreases prompts.len(),
{
    if prompts.len() == 0 {
        None
    } else if prompts[0].id@ == id {
        Some(prompts[0])
    } else {
        prompt_with(prompts.drop_first(), id)
    }
}

/// The log after an answer is stored: the catalog slot of the question when it has one, else
/// the custom answer under its id (removed when cleared); a day without a log gets an empty
/// one first.
pub open spec fn answer_stored(
    before: Option<CaptainsLog>,
    after: Option<CaptainsLog>,
    date: Seq<char>,
    id: Seq<char>,
    key: Option<AnswerKey>,
    value: Option<String>,
) -> bool {
    after matches Some(a) && {
        &&& (before matches Some(b) ==> a.date == b.date && a.narrative == b.narrative && a.marked_complete == b.marked_complete)
        &&& (before is None ==> a.date@ == date && a.narrative is None && !a.marked_complete)
        &&& match key {
            Some(k) => {
                &&& a.typed_answer(k) == value
                &&& forall|o: AnswerKey| o != k ==> a.typed_answer(o) == (match before {
                    Some(b) => b.typed_answer(o),
                    None => None,
                })
                &&& forall|other: Seq<char>| lookup_answer(a.answers@, other) == (match before {
                    Some(b) => lookup_answer(b.answers@, other),
                    None => None,
                })
            },
            None => {
                &&& forall|o: AnswerKey| a.typed_answer(o) == (match before {
                    Some(b) => b.typed_answer(o),
                    None => None,
                })
                &&& lookup_answer(a.answers@, id) == value
                &&& forall|other: Seq<char>| other != id ==> lookup_answer(a.answers@, other) == (match before {
                    Some(b) => lookup_answer(b.answers@, other),
                    None => None,
                })
            },
        }
    }
}

fn same_text(a: &DisplayText, b: &DisplayText) -> (r: bool)
    ensures
        r == (a@ == b@),
{
    match (a, b) {
        (DisplayText::Literal(x), DisplayText::Literal(y)) => str_eq(x.as_str(), y.as_str()),
        (DisplayText::Key(x), DisplayText::Key(y)) => str_eq(x.as_str(), y.as_str()),
        _ => false,
    }
}

impl State {
    pub closed spec fn spec_completeness(self) -> Completeness {
        self.completeness
    }

    pub closed spec fn spec_date(self) -> Seq<char> {
        self.date@
    }

    pub closed spec fn spec_log(self) -> Option<CaptainsLog> {
        self.log
    }

    pub closed spec fn spec_prompts(self) -> Seq<Prompt> {
        self.prompts@
    }

    pub closed spec fn spec_draft(self) -> Seq<char> {
        self.draft@
    }

    pub closed spec fn spec_editing(self) -> Option<Seq<char>> {
        match self.editing {
            Some(id) => Some(id@),
            None => None,
        }
    }

    pub closed spec fn spec_debriefs(self) -> Seq<km_report::State> {
        self.debriefs@
    }

    pub closed spec fn spec_narrative(self) -> narrative::State {
        self.narrative
    }

    /// A past day's view: its log, its completeness, a debrief per engagement, and the fields
    /// of the configuration.
    pub fn new(
        date: String,
        log: Option<CaptainsLog>,
        completeness: Completeness,
        engagements: Vec<DebriefKey>,
        prompts: Vec<Prompt>,
    ) -> (r: State)
        ensures
            r.spec_date() == date@,
            r.spec_log() == log,
            r.spec_completeness() == completeness,
            r.spec_prompts() == prompts@,
            r.spec_editing() is None,
            r.spec_debriefs().len() == engagements@.len(),
            forall|i: int| 0 <= i < engagements@.len() ==> {
                let d = #[trigger] r.spec_debriefs()[i];
                &&& d.spec_character_id() == engagements@[i].character_id
                &&& d.spec_killmail_id() == engagements@[i].killmail_id
                &&& d.spec_editing()
                &&& d.spec_saved() is None
            },
            r.spec_narrative().spec_text() == crate::narrative::kept_text(match log {
                Some(l) => l.narrative,
                None => None,
            }),
    {
        let mut debriefs: Vec<km_report::State> = Vec::new();
        let mut i: usize = 0;
        while i < engagements.len()
            invariant
                i <= engagements.len(),
                debriefs@.len() == i,
                forall|k: int| 0 <= k < i ==> {
                    let d = #[trigger] debriefs@[k];
                    &&& d.spec_character_id() == engagements@[k].character_id
                    &&& d.spec_killmail_id() == engagements@[k].killmail_id
                    &&& d.spec_editing()
                    &&& d.spec_saved() is None
                },
            decreases engagements.len() - i,
        {
            let e = engagements[i];
            debriefs.push(km_report::State::new(e.character_id, e.killmail_id, e.is_kill));
            i = i + 1;
        }
        let narrative_text = match &log {
            Some(l) => match &l.narrative {
                Some(n) => Some(n.clone()),
                None => None,
            },
            None => None,
        };
        State {
            completeness,
            date,
            debriefs,
            draft: String::new(),
            editing: None,
            log,
            narrative: narrative::State::new(narrative_text),
            prompts,
        }
    }

    /// The day's stored log, once there is one.
    pub fn log(&self) -> (r: Option<&CaptainsLog>)
        ensures
            r matches Some(l) ==> self.spec_log() == Some(*l),
            r is None ==> self.spec_log() is None,
    {
        match &self.log {
            Some(l) => Some(l),
            None => None,
        }
    }

    /// The question being edited.
    pub fn editing(&self) -> (r: Option<&String>)
        ensures
            r matches Some(id) ==> self.spec_editing() == Some(id@),
            r is None ==> self.spec_editing() is None,
    {
        match &self.editing {
            Some(id) => Some(id),
            None => None,
        }
    }

    /// The editor's text.
    pub fn draft(&self) -> (r: &str)
        ensures
            r@ == self.spec_draft(),
    {
        self.draft.as_str()
    }

    /// The debrief panels, one per engagement.
    pub fn debriefs(&self) -> (r: &Vec<km_report::State>)
        ensures
            r@ == self.spec_debriefs(),
    {
        &self.debriefs
    }

    /// The day's narrative hero.
    pub fn narrative(&self) -> (r: &narrative::State)
        ensures
            *r == self.spec_narrative(),
    {
        &self.narrative
    }

    /// The question with id `id`.
    pub fn prompt_by_id(&self, id: &str) -> (r: Option<&Prompt>)
        ensures
            match r {
                Some(p) => prompt_with(self.spec_prompts(), id@) == Some(*p),
                None => prompt_with(self.spec_prompts(), id@) is None,
            },
    {
        let mut i: usize = 0;
        assert(self.prompts@.skip(0) =~= self.prompts@);
        while i < self.prompts.len()
            invariant
                i <= self.prompts.len(),
                prompt_with(self.prompts@, id@) == prompt_with(self.prompts@.skip(i as int), id@),
            decreases self.prompts.len() - i,
        {
            assert(self.prompts@.skip(i as int).drop_first() =~= self.prompts@.skip(i + 1));
            if str_eq(self.prompts[i].id.as_str(), id) {
                assert(self.prompts@.skip(i as int)[0] == self.prompts@[i as int]);
                return Some(&self.prompts[i]);
            }
            i = i + 1;
        }
        None
    }

    /// Whether a field is flagged missing: a catalog question among the missing catalog
    /// answers, a custom one among the missing labels by the label it shows.
    pub fn is_missing(&self, prompt: &Prompt) -> (r: bool)
        ensures
            match prompt.key {
                Some(k) => r == self.spec_completeness().missing_prompts@.contains(k),
                None => r == exists|j: int| 0 <= j < self.spec_completeness().missing_custom@.len()
                    && (#[trigger] self.spec_completeness().missing_custom@[j])@ == spec_field_label(prompt@),
            },
    {
        match prompt.key {
            Some(k) => {
                let missing = &self.completeness.missing_prompts;
                let mut i: usize = 0;
                while i < missing.len()
                    invariant
                        i <= missing.len(),
                        prompt.key == Some(k),
                        missing@ == self.spec_completeness().missing_prompts@,
                        forall|j: int| 0 <= j < i ==> missing@[j] != k,
                    decreases missing.len() - i,
                {
                    if missing[i] == k {
                        assert(missing@[i as int] == k);
                        return true;
                    }
                    i = i + 1;
                }
                false
            },
            None => {
                let label = field_label(prompt);
                let missing = &self.completeness.missing_custom;
                let mut i: usize = 0;
                while i < missing.len()
                    invariant
                        i <= missing.len(),
                        prompt.key is None,
                        missing@ == self.spec_completeness().missing_custom@,
                        label@ == spec_field_label(prompt@),
                        forall|j: int| 0 <= j < i ==> (#[trigger] missing@[j])@ != label@,
                    decreases missing.len() - i,
                {
                    if same_text(&missing[i], &label) {
                        return true;
                    }
                    i = i + 1;
                }
                false
            },
        }
    }

    /// Whether the debrief of the loss (`character_id`, `killmail_id`) is flagged missing.
    pub fn missing_debrief(&self, character_id: i64, killmail_id: i64) -> (r: bool)
        ensures
            r == exists|j: int| 0 <= j < self.spec_completeness().missing_debriefs@.len()
                && (#[trigger] self.spec_completeness().missing_debriefs@[j]).character_id == character_id
                && self.spec_completeness().missing_debriefs@[j].killmail_id == killmail_id,
    {
        let losses = &self.completeness.missing_debriefs;
        let mut i: usize = 0;
        while i < losses.len()
            invariant
                i <= losses.len(),
                losses@ == self.spec_completeness().missing_debriefs@,
                forall|j: int| 0 <= j < i ==> !((#[trigger] losses@[j]).character_id == character_id && losses@[j].killmail_id == killmail_id),
            decreases losses.len() - i,
        {
            if losses[i].character_id == character_id && losses[i].killmail_id == killmail_id {
                assert(losses@[i as int].character_id == character_id);
                return true;
            }
            i = i + 1;
        }
        false
    }

    /// The authored answer of a field: its stored text when not blank.
    pub fn answer_of(&self, prompt: &Prompt) -> (r: Option<&String>)
        ensures
            match r {
                Some(t) => authored(self.spec_log(), prompt@) == Some(t@),
                None => authored(self.spec_log(), prompt@) is None,
            },
    {
        let log = match &self.log {
            Some(l) => l,
            None => return None,
        };
        let text = match prompt.key {
            Some(k) => log.answer_text(k),
            None => log.custom_answer(prompt.id.as_str()),
        };
        match text {
            Some(t) => if is_blank(t.as_str()) {
                None
            } else {
                Some(t)
            },
            None => None,
        }
    }

    /// Whether a field shows: core questions always, others once answered or when required.
    pub fn show_field(&self, prompt: &Prompt) -> (r: bool)
        ensures
            r == (prompt.group == PromptGroup::Core || prompt.required || authored(self.spec_log(), prompt@) is Some),
    {
        prompt.group == PromptGroup::Core || prompt.required || self.answer_of(prompt).is_some()
    }

    /// Opens the editor on question `id`, filled with its authored answer.
    pub fn begin_edit(&mut self, id: String)
        ensures
            final(self).spec_editing() == Some(id@),
            final(self).spec_draft() == (match prompt_with(old(self).spec_prompts(), id@) {
                Some(p) => match authored(old(self).spec_log(), p@) {
                    Some(t) => t,
                    None => Seq::<char>::empty(),
                },
                None => Seq::<char>::empty(),
            }),
            final(self).spec_log() == old(self).spec_log(),
            final(self).spec_prompts() == old(self).spec_prompts(),
            final(self).spec_date() == old(self).spec_date(),
            final(self).spec_completeness() == old(self).spec_completeness(),
            final(self).spec_debriefs() == old(self).spec_debriefs(),
            final(self).spec_narrative() == old(self).spec_narrative(),
    {
        let current = match self.prompt_by_id(id.as_str()) {
            Some(p) => match self.answer_of(p) {
                Some(t) => t.clone(),
                None => String::new(),
            },
            None => String::new(),
        };
        self.draft = current;
        self.editing = Some(id);
    }

    /// Stores an answer that was saved: into the catalog slot of its question, or as a custom
    /// answer; a day without a log gets an empty one first.
    pub fn set_answer(&mut self, id: &str, value: Option<String>)
        ensures
            answer_stored(
                old(self).spec_log(),
                final(self).spec_log(),
                old(self).spec_date(),
                id@,
                match prompt_with(old(self).spec_prompts(), id@) {
                    Some(p) => p.key,
                    None => None,
                },
                value,
            ),
            final(self).spec_prompts() == old(self).spec_prompts(),
            final(self).spec_date() == old(self).spec_date(),
            final(self).spec_editing() == old(self).spec_editing(),
            final(self).spec_completeness() == old(self).spec_completeness(),
            final(self).spec_debriefs() == old(self).spec_debriefs(),
            final(self).spec_narrative() == old(self).spec_narrative(),
    {
        let key = match self.prompt_by_id(id) {
            Some(p) => p.key,
            None => None,
        };
        let mut entry = match self.log.take() {
            Some(l) => l,
            None => CaptainsLog::empty(self.date.clone()),
        };
        let ghost before = entry;
        proof {
            if old(self).log is None {
                assert forall|other: Seq<char>| lookup_answer(before.answers@, other) is None by {
                }
            }
        }
        match key {
            Some(k) => entry.set_typed(k, value),
            None => match value {
                Some(v) => entry.insert_answer(id.to_owned(), v),
                None => entry.remove_answer(id),
            },
        }
        self.log = Some(entry);
    }

    /// The day's view after a message, and what it asks the caller to do.
    pub fn update(&mut self, message: Message) -> (r: Effect)
        ensures
            final(self).spec_prompts() == old(self).spec_prompts(),
            final(self).spec_date() == old(self).spec_date(),
            final(self).spec_completeness() == old(self).spec_completeness(),
            final(self).spec_debriefs().len() == old(self).spec_debriefs().len(),
            match message {
                Message::Cancelled => r is Nothing && final(self).spec_editing() is None && final(self).spec_log() == old(self).spec_log(),
                Message::DraftEdited(text) => r is Nothing && final(self).spec_draft() == text@,
                Message::EditRequested(id) => r is Nothing && final(self).spec_editing() == Some(id@),
                Message::SaveRequested(id) => r matches Effect::SaveAnswer { id: saved_id, value } && saved_id@ == id@
                    && match value {
                        Some(v) => !blank(old(self).spec_draft()) && v@ == trimmed(old(self).spec_draft()),
                        None => blank(old(self).spec_draft()),
                    },
                Message::Saved(id, Ok(value)) => r is Nothing && final(self).spec_editing() is None && answer_stored(
                    old(self).spec_log(),
                    final(self).spec_log(),
                    old(self).spec_date(),
                    id@,
                    match prompt_with(old(self).spec_prompts(), id@) {
                        Some(p) => p.key,
                        None => None,
                    },
                    value,
                ),
                Message::Saved(_, Err(_)) => r is Nothing && final(self).spec_log() == old(self).spec_log()
                    && final(self).spec_editing() == old(self).spec_editing(),
                Message::Narrative(inner) => {
                    &&& final(self).spec_log() == old(self).spec_log()
                    &&& final(self).spec_editing() == old(self).spec_editing()
                    &&& final(self).spec_draft() == old(self).spec_draft()
                    &&& match r {
                        Effect::SaveNarrative(v) => narrative::stepped(old(self).spec_narrative(), inner, final(self).spec_narrative(), Some(v)),
                        Effect::Nothing => narrative::stepped(old(self).spec_narrative(), inner, final(self).spec_narrative(), None),
                        _ => false,
                    }
                },
                Message::Report(index, inner) => {
                    &&& final(self).spec_log() == old(self).spec_log()
                    &&& final(self).spec_editing() == old(self).spec_editing()
                    &&& final(self).spec_draft() == old(self).spec_draft()
                    &&& if index < old(self).spec_debriefs().len() {
                        &&& final(self).spec_debriefs() == old(self).spec_debriefs().update(index as int, final(self).spec_debriefs()[index as int])
                        &&& match r {
                            Effect::SaveReport { index: i, input } => i == index && km_report::stepped(
                                old(self).spec_debriefs()[index as int], inner, final(self).spec_debriefs()[index as int], Some(input)),
                            Effect::Nothing => km_report::stepped(
                                old(self).spec_debriefs()[index as int], inner, final(self).spec_debriefs()[index as int], None),
                            _ => false,
                        }
                    } else {
                        r is Nothing && final(self).spec_debriefs() == old(self).spec_debriefs()
                    }
                },
            },
            !(message is Narrative) ==> final(self).spec_narrative() == old(self).spec_narrative(),
            !(message is Report) ==> final(self).spec_debriefs() == old(self).spec_debriefs(),
    {
        match message {
            Message::Cancelled => {
                self.editing = None;
                Effect::Nothing
            },
            Message::DraftEdited(text) => {
                self.draft = text;
                Effect::Nothing
            },
            Message::EditRequested(id) => {
                self.begin_edit(id);
                Effect::Nothing
            },
            Message::SaveRequested(id) => {
                let value = non_blank(self.draft.as_str());
                Effect::SaveAnswer { id, value }
            },
            Message::Saved(id, result) => {
                match result {
                    Ok(value) => {
                        self.set_answer(id.as_str(), value);
                        self.editing = None;
                    },
                    Err(_) => {},
                }
                Effect::Nothing
            },
            Message::Narrative(inner) => {
                match narrative::update(&mut self.narrative, inner) {
                    Some(value) => Effect::SaveNarrative(value),
                    None => Effect::Nothing,
                }
            },
            Message::Report(index, inner) => {
                if index < self.debriefs.len() {
                    let ghost before = self.debriefs@;
                    let mut report = self.debriefs.remove(index);
                    let saved = km_report::update(&mut report, inner);
                    self.debriefs.insert(index, report);
                    assert(self.debriefs@ =~= before.update(index as int, self.debriefs@[index as int]));
                    match saved {
                        Some(input) => Effect::SaveReport { index, input },
                        None => Effect::Nothing,
                    }
                } else {
                    Effect::Nothing
                }
            },
        }
    }
}

/// The narrative pane speaks to today's entry; opened from a past day, its messages are
/// redirected to that day's own narrative. Any other message passes through unchanged.
pub fn wrap_narrative(message: log_book::Message) -> (r: log_book::Message)
    ensures
        r == (match message {
            log_book::Message::Narrative(inner) => log_book::Message::Past(Message::Narrative(inner)),
            other => other,
        }),
{
    match message {
        log_book::Message::Narrative(inner) => log_book::Message::Past(Message::Narrative(inner)),
        other => other,
    }
}

} // verus!
