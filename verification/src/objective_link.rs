//! Linking captain's log answers to standing objectives: the objectives on offer, the links
//! each day holds, and the inline picker that sets, clears or creates a link.

use vstd::prelude::*;
use crate::scopes::str_eq;
use crate::prompts::{DisplayText, DisplayTextView};
use crate::text::{push_str, string_from_chars, trimmed, trimmed_chars};

verus! {

/// Where an objective stands.
#[derive(Clone, Copy, Debug, PartialEq, Eq, Structural)]
pub enum ObjectiveStatus {
    Active,
    Cancelled,
    Complete,
}

/// The status a stored name stands for.
pub open spec fn spec_parse_status(value: Seq<char>) -> Option<ObjectiveStatus> {
    if value == "active"@ {
        Some(ObjectiveStatus::Active)
    } else if value == "cancelled"@ {
        Some(ObjectiveStatus::Cancelled)
    } else if value == "complete"@ {
        Some(ObjectiveStatus::Complete)
    } else {
        None
    }
}

impl ObjectiveStatus {
    /// The status a stored name stands for, `None` for an unknown name.
    pub fn parse(value: &str) -> (r: Option<ObjectiveStatus>)
        ensures
            r == spec_parse_status(value@),
    {
        if str_eq(value, "active") {
            Some(ObjectiveStatus::Active)
        } else if str_eq(value, "cancelled") {
            Some(ObjectiveStatus::Cancelled)
        } else if str_eq(value, "complete") {
            Some(ObjectiveStatus::Complete)
        } else {
            None
        }
    }
}

impl Default for ObjectiveStatus {
    fn default() -> (r: ObjectiveStatus)
        ensures
            r == ObjectiveStatus::Active,
    {
        ObjectiveStatus::Active
    }
}

/// A stored objective.
#[derive(Clone, Debug)]
pub struct Objective {
    pub id: i64,
    pub title: String,
    pub accent: String,
    pub status: String,
}

/// An objective as the picker offers it.
#[derive(Clone, Debug)]
pub struct ObjectiveOption {
    pub id: i64,
    pub title: String,
    pub accent: String,
    pub status: ObjectiveStatus,
}

/// The status an option shows: the stored status, active when it is unknown.
pub open spec fn option_status(model: Objective) -> ObjectiveStatus {
    match spec_parse_status(model.status@) {
        Some(s) => s,
        None => ObjectiveStatus::Active,
    }
}

/// Whether `option` presents `model`.
pub open spec fn presents(option: ObjectiveOption, model: Objective) -> bool {
    &&& option.id == model.id
    &&& option.title@ == model.title@
    &&& option.accent@ == model.accent@
    &&& option.status == option_status(model)
}

/// The picker's entry for a stored objective.
pub fn to_option(model: &Objective) -> (r: ObjectiveOption)
    ensures
        presents(r, *model),
{
    let status = match ObjectiveStatus::parse(model.status.as_str()) {
        Some(s) => s,
        None => ObjectiveStatus::Active,
    };
    ObjectiveOption { id: model.id, title: model.title.clone(), accent: model.accent.clone(), status }
}

/// The picker's entries for stored objectives, in order.
pub fn options(models: &Vec<Objective>) -> (r: Vec<ObjectiveOption>)
    ensures
        r@.len() == models@.len(),
        forall|i: int| 0 <= i < r@.len() ==> presents(#[trigger] r@[i], models@[i]),
{
    let mut out: Vec<ObjectiveOption> = Vec::new();
    let mut i: usize = 0;
    while i < models.len()
        invariant
            i <= models.len(),
            out@.len() == i,
            forall|k: int| 0 <= k < i ==> presents(#[trigger] out@[k], models@[k]),
        decreases models.len() - i,
    {
        out.push(to_option(&models[i]));
        i = i + 1;
    }
    out
}

/// What a link points from: a kind of source and its reference within that kind.
#[derive(Clone, Debug)]
pub struct LinkSource {
    pub kind: String,
    pub reference: String,
}

impl LinkSource {
    /// The answer to question `question_id` in a day's log.
    pub fn log_answer(question_id: String) -> (r: LinkSource)
        ensures
            r.kind@ == "log_answer"@,
            r.reference@ == question_id@,
    {
        LinkSource { kind: "log_answer".to_owned(), reference: question_id }
    }

    /// The kind of source.
    pub fn source_kind(&self) -> (r: &str)
        ensures
            r@ == self.kind@,
    {
        self.kind.as_str()
    }

    /// The source's reference within its kind.
    pub fn source_ref(&self) -> (r: &str)
        ensures
            r@ == self.reference@,
    {
        self.reference.as_str()
    }
}

/// The name a source kind shows: the i18n key of a known kind, else the kind itself.
pub open spec fn spec_source_label(kind: Seq<char>) -> DisplayTextView {
    if kind == "log_answer"@ || kind == "field_note"@ || kind == "killmail"@ || kind == "industry"@ || kind == "skill"@ {
        DisplayTextView::Key("standing_orders.thread.source."@ + kind)
    } else {
        DisplayTextView::Literal(kind)
    }
}

/// The name a source kind shows: the i18n key of a known kind, else the kind itself.
pub fn source_label(kind: &str) -> (r: DisplayText)
    ensures
        r@ == spec_source_label(kind@),
{
    let known = str_eq(kind, "log_answer") || str_eq(kind, "field_note") || str_eq(kind, "killmail")
        || str_eq(kind, "industry") || str_eq(kind, "skill");
    if known {
        let mut v: Vec<char> = Vec::new();
        push_str(&mut v, "standing_orders.thread.source.");
        push_str(&mut v, kind);
        DisplayText::Key(string_from_chars(&v))
    } else {
        DisplayText::Literal(kind.to_owned())
    }
}

/// Two sources are the same when kind and reference agree.
pub open spec fn same_source(a: LinkSource, b: LinkSource) -> bool {
    a.kind@ == b.kind@ && a.reference@ == b.reference@
}

/// The picker toggled for `source` on `date`: closed when it was open there, else opened
/// there with an empty, hidden create field; the objectives and links stay.
pub open spec fn picker_toggled(a: State, date: Seq<char>, source: LinkSource, b: State) -> bool {
    &&& a.spec_is_open(date, source) ==> b.spec_picker() is None
    &&& !a.spec_is_open(date, source) ==> (b.spec_picker() matches Some(p) && p.date@ == date
        && same_source(p.source, source) && !p.creating && p.draft@.len() == 0)
    &&& b.spec_objectives() == a.spec_objectives()
    &&& b.spec_links() == a.spec_links()
}

/// Toggling the picker for the same source and day twice closes it, whatever was open before,
/// and leaves the objectives and links as they were.
pub proof fn lemma_toggle_twice_closes(a: State, b: State, c: State, date: Seq<char>, source: LinkSource)
    requires
        !a.spec_is_open(date, source),
        picker_toggled(a, date, source, b),
        picker_toggled(b, date, source, c),
    ensures
        c.spec_picker() is None,
        c.spec_objectives() == a.spec_objectives(),
        c.spec_links() == a.spec_links(),
{
}

fn same_source_exec(a: &LinkSource, b: &LinkSource) -> (r: bool)
    ensures
        r == same_source(*a, *b),
{
    str_eq(a.kind.as_str(), b.kind.as_str()) && str_eq(a.reference.as_str(), b.reference.as_str())
}

/// A stored link from a source on a day to an objective.
#[derive(Clone, Debug)]
pub struct ObjectiveLink {
    pub date: String,
    pub objective_id: i64,
    pub source_kind: String,
    pub source_ref: String,
}

/// The inline picker, open for one source on one day.
#[derive(Clone, Debug)]
pub struct Picker {
    pub date: String,
    pub source: LinkSource,
    pub creating: bool,
    pub draft: String,
}

/// What a reload brings: the objectives, and the links of some days.
#[derive(Clone, Debug)]
pub struct Data {
    pub objectives: Vec<ObjectiveOption>,
    pub links: Vec<(String, Vec<ObjectiveLink>)>,
}

/// The links stored for `date`: those of the latest entry for it, none when there is none.
pub open spec fn links_on(entries: Seq<(String, Vec<ObjectiveLink>)>, date: Seq<char>) -> Seq<ObjectiveLink>
    decreases entries.len(),
{
    if entries.len() == 0 {
        seq![]
    } else if entries.last().0@ == date {
        entries.last().1@
    } else {
        links_on(entries.drop_last(), date)
    }
}

/// The objective the first link from `source` points to.
pub open spec fn linked_in(links: Seq<ObjectiveLink>, source: LinkSource) -> Option<i64>
    decreases links.len(),
{
    if links.len() == 0 {
        None
    } else if links[0].source_kind@ == source.kind@ && links[0].source_ref@ == source.reference@ {
        Some(links[0].objective_id)
    } else {
        linked_in(links.drop_first(), source)
    }
}

/// The first objective offered under `id`.
pub open spec fn option_with(objectives: Seq<ObjectiveOption>, id: i64) -> Option<ObjectiveOption>
    decreases objectives.len(),
{
    if objectives.len() == 0 {
        None
    } else if objectives[0].id == id {
        Some(objectives[0])
    } else {
        option_with(objectives.drop_first(), id)
    }
}

/// The objectives still active, in order.
pub open spec fn active_in(objectives: Seq<ObjectiveOption>) -> Seq<ObjectiveOption>
    decreases objectives.len(),
{
    if objectives.len() == 0 {
        seq![]
    } else if objectives.last().status == ObjectiveStatus::Active {
        active_in(objectives.drop_last()).push(objectives.last())
    } else {
        active_in(objectives.drop_last())
    }
}

/// The picker's state: the objectives on offer, the links of the days loaded, and the picker
/// when one is open.
#[derive(Clone, Debug)]
pub struct State {
    objectives: Vec<ObjectiveOption>,
    links: Vec<(String, Vec<ObjectiveLink>)>,
    picker: Option<Picker>,
}

/// What a press in the picker asks to store: the link to clear and the link to set.
#[derive(Clone, Copy, Debug)]
pub struct LinkChange {
    pub clear: Option<i64>,
    pub set: Option<i64>,
}

impl State {
    pub closed spec fn spec_objectives(self) -> Seq<ObjectiveOption> {
        self.objectives@
    }

    pub closed spec fn spec_links(self) -> Seq<(String, Vec<ObjectiveLink>)> {
        self.links@
    }

    pub closed spec fn spec_picker(self) -> Option<Picker> {
        self.picker
    }

    /// Whether the picker is open for `source` on `date`.
    pub open spec fn spec_is_open(self, date: Seq<char>, source: LinkSource) -> bool {
        self.spec_picker() matches Some(p) && p.date@ == date && same_source(p.source, source)
    }

    /// Nothing loaded and no picker open.
    pub fn new() -> (r: State)
        ensures
            r.spec_objectives().len() == 0,
            r.spec_links().len() == 0,
            r.spec_picker() is None,
    {
        State { objectives: Vec::new(), links: Vec::new(), picker: None }
    }

    /// Replaces the objectives on offer.
    pub fn set_objectives(&mut self, objectives: Vec<ObjectiveOption>)
        ensures
            final(self).spec_objectives() == objectives@,
            final(self).spec_links() == old(self).spec_links(),
            final(self).spec_picker() == old(self).spec_picker(),
    {
        self.objectives = objectives;
    }

    /// Replaces the links stored for `date`.
    pub fn set_day_links(&mut self, date: String, links: Vec<ObjectiveLink>)
        ensures
            links_on(final(self).spec_links(), date@) == links@,
            forall|d: Seq<char>| d != date@ ==> links_on(final(self).spec_links(), d) == links_on(old(self).spec_links(), d),
            final(self).spec_objectives() == old(self).spec_objectives(),
            final(self).spec_picker() == old(self).spec_picker(),
    {
        let ghost before = self.links@;
        self.links.push((date, links));
        assert(self.links@.drop_last() =~= before);
    }

    /// Takes in a reload: its objectives replace those on offer, its days' links replace
    /// those stored for them.
    pub fn apply(&mut self, data: Data)
        ensures
            final(self).spec_objectives() == data.objectives@,
            final(self).spec_picker() == old(self).spec_picker(),
            forall|d: Seq<char>| #![trigger links_on(final(self).spec_links(), d)]
                links_on(final(self).spec_links(), d) == (if exists|k: int| 0 <= k < data.links@.len() && data.links@[k].0@ == d {
                    links_on(data.links@, d)
                } else {
                    links_on(old(self).spec_links(), d)
                }),
    {
        let ghost start = self.links@;
        let ghost orig = data.links@;
        self.objectives = data.objectives;
        let mut days = data.links;
        while days.len() > 0
            invariant
                self.links@ == start + orig.take(orig.len() - days@.len()),
                days@ == orig.skip(orig.len() - days@.len()),
                days@.len() <= orig.len(),
                self.objectives@ == data.objectives@,
                self.picker == old(self).picker,
            decreases days@.len(),
        {
            let ghost k = orig.len() - days@.len();
            let entry = days.remove(0);
            assert(entry == orig[k]);
            self.links.push(entry);
            assert(self.links@ =~= start + orig.take(k + 1));
            assert(days@ =~= orig.skip(k + 1));
        }
        assert(orig.take(orig.len() as int) =~= orig);
        proof {
            assert forall|d: Seq<char>| #![trigger links_on(self.links@, d)]
                links_on(self.links@, d) == (if exists|k: int| 0 <= k < orig.len() && orig[k].0@ == d {
                    links_on(orig, d)
                } else {
                    links_on(start, d)
                }) by {
                lemma_links_on_append(start, orig, d);
            }
        }
    }

    /// The links stored for `date`, `None` when none are.
    pub fn day_links(&self, date: &str) -> (r: Option<&Vec<ObjectiveLink>>)
        ensures
            match r {
                Some(v) => v@ == links_on(self.spec_links(), date@),
                None => links_on(self.spec_links(), date@).len() == 0,
            },
    {
        let mut i: usize = self.links.len();
        assert(self.links@.take(i as int) =~= self.links@);
        while i > 0
            invariant
                i <= self.links.len(),
                links_on(self.links@, date@) == links_on(self.links@.take(i as int), date@),
            decreases i,
        {
            assert(self.links@.take(i as int).drop_last() =~= self.links@.take(i - 1));
            if str_eq(self.links[i - 1].0.as_str(), date) {
                return Some(&self.links[i - 1].1);
            }
            i = i - 1;
        }
        None
    }

    /// The objective offered under `id`.
    pub fn option(&self, id: i64) -> (r: Option<&ObjectiveOption>)
        ensures
            match r {
                Some(o) => option_with(self.spec_objectives(), id) == Some(*o),
                None => option_with(self.spec_objectives(), id) is None,
            },
    {
        let mut i: usize = 0;
        assert(self.objectives@.skip(0) =~= self.objectives@);
        while i < self.objectives.len()
            invariant
                i <= self.objectives.len(),
                option_with(self.objectives@, id) == option_with(self.objectives@.skip(i as int), id),
            decreases self.objectives.len() - i,
        {
            assert(self.objectives@.skip(i as int).drop_first() =~= self.objectives@.skip(i + 1));
            if self.objectives[i].id == id {
                return Some(&self.objectives[i]);
            }
            i = i + 1;
        }
        None
    }

    /// The objectives the picker lists: the active ones, in order.
    pub fn active(&self) -> (r: Vec<ObjectiveOption>)
        ensures
            r@.len() == active_in(self.spec_objectives()).len(),
            forall|i: int| 0 <= i < r@.len() ==> {
                let o = #[trigger] active_in(self.spec_objectives())[i];
                &&& r@[i].id == o.id
                &&& r@[i].title@ == o.title@
                &&& r@[i].accent@ == o.accent@
                &&& r@[i].status == o.status
            },
    {
        let mut out: Vec<ObjectiveOption> = Vec::new();
        let mut i: usize = 0;
        while i < self.objectives.len()
            invariant
                i <= self.objectives.len(),
                out@.len() == active_in(self.objectives@.take(i as int)).len(),
                forall|k: int| 0 <= k < out@.len() ==> {
                    let o = #[trigger] active_in(self.objectives@.take(i as int))[k];
                    &&& out@[k].id == o.id
                    &&& out@[k].title@ == o.title@
                    &&& out@[k].accent@ == o.accent@
                    &&& out@[k].status == o.status
                },
            decreases self.objectives.len() - i,
        {
            assert(self.objectives@.take(i + 1).drop_last() =~= self.objectives@.take(i as int));
            let o = &self.objectives[i];
            if o.status == ObjectiveStatus::Active {
                out.push(ObjectiveOption { id: o.id, title: o.title.clone(), accent: o.accent.clone(), status: o.status });
            }
            i = i + 1;
        }
        assert(self.objectives@.take(self.objectives.len() as int) =~= self.objectives@);
        out
    }

    /// The objective the source is linked to on `date`.
    pub fn linked_id(&self, date: &str, source: &LinkSource) -> (r: Option<i64>)
        ensures
            r == linked_in(links_on(self.spec_links(), date@), *source),
    {
        let links = match self.day_links(date) {
            Some(links) => links,
            None => return None,
        };
        let mut i: usize = 0;
        assert(links@.skip(0) =~= links@);
        while i < links.len()
            invariant
                i <= links.len(),
                links@ == links_on(self.spec_links(), date@),
                linked_in(links@, *source) == linked_in(links@.skip(i as int), *source),
            decreases links.len() - i,
        {
            assert(links@.skip(i as int).drop_first() =~= links@.skip(i + 1));
            if str_eq(links[i].source_kind.as_str(), source.kind.as_str()) && str_eq(links[i].source_ref.as_str(), source.reference.as_str()) {
                return Some(links[i].objective_id);
            }
            i = i + 1;
        }
        None
    }

    /// The objective the source is linked to on `date`, when it is on offer.
    pub fn linked_objective(&self, date: &str, source: &LinkSource) -> (r: Option<&ObjectiveOption>)
        ensures
            match linked_in(links_on(self.spec_links(), date@), *source) {
                Some(id) => match r {
                    Some(o) => option_with(self.spec_objectives(), id) == Some(*o),
                    None => option_with(self.spec_objectives(), id) is None,
                },
                None => r is None,
            },
    {
        match self.linked_id(date, source) {
            Some(id) => self.option(id),
            None => None,
        }
    }

    /// Whether the picker is open for `source` on `date`.
    pub fn is_open(&self, date: &str, source: &LinkSource) -> (r: bool)
        ensures
            r == self.spec_is_open(date@, *source),
    {
        match &self.picker {
            Some(p) => str_eq(p.date.as_str(), date) && same_source_exec(&p.source, source),
            None => false,
        }
    }

    /// Whether the picker is open for `source` on `date` with its create field showing.
    pub fn is_creating(&self, date: &str, source: &LinkSource) -> (r: bool)
        ensures
            r == (self.spec_is_open(date@, *source) && self.spec_picker().unwrap().creating),
    {
        match &self.picker {
            Some(p) => p.creating && str_eq(p.date.as_str(), date) && same_source_exec(&p.source, source),
            None => false,
        }
    }

    /// The create field's text, empty when no picker is open.
    pub fn draft(&self) -> (r: &str)
        ensures
            r@ == (match self.spec_picker() {
                Some(p) => p.draft@,
                None => Seq::<char>::empty(),
            }),
    {
        proof {
            reveal_strlit("");
        }
        match &self.picker {
            Some(p) => p.draft.as_str(),
            None => "",
        }
    }

    /// Opens the picker for `source` on `date`, or closes it when it is already open there.
    pub fn toggle(&mut self, date: String, source: LinkSource)
        ensures
            picker_toggled(*old(self), date@, source, *final(self)),
    {
        if self.is_open(date.as_str(), &source) {
            self.picker = None;
        } else {
            self.picker = Some(Picker { date, source, creating: false, draft: String::new() });
        }
    }

    /// Closes the picker.
    pub fn close(&mut self)
        ensures
            final(self).spec_picker() is None,
            final(self).spec_objectives() == old(self).spec_objectives(),
            final(self).spec_links() == old(self).spec_links(),
    {
        self.picker = None;
    }

    /// Shows the create field of the open picker.
    pub fn start_create(&mut self)
        ensures
            match old(self).spec_picker() {
                Some(p) => final(self).spec_picker() matches Some(q) && q.creating && q.date == p.date
                    && q.source == p.source && q.draft == p.draft,
                None => final(self).spec_picker() is None,
            },
            final(self).spec_objectives() == old(self).spec_objectives(),
            final(self).spec_links() == old(self).spec_links(),
    {
        match &mut self.picker {
            Some(p) => {
                p.creating = true;
            },
            None => {},
        }
    }

    /// Hides the create field of the open picker and empties it.
    pub fn cancel_create(&mut self)
        ensures
            match old(self).spec_picker() {
                Some(p) => final(self).spec_picker() matches Some(q) && !q.creating && q.date == p.date
                    && q.source == p.source && q.draft@.len() == 0,
                None => final(self).spec_picker() is None,
            },
            final(self).spec_objectives() == old(self).spec_objectives(),
            final(self).spec_links() == old(self).spec_links(),
    {
        match &mut self.picker {
            Some(p) => {
                p.creating = false;
                p.draft = String::new();
            },
            None => {},
        }
    }

    /// Replaces the text of the open picker's create field.
    pub fn set_draft(&mut self, value: String)
        ensures
            match old(self).spec_picker() {
                Some(p) => final(self).spec_picker() matches Some(q) && q.creating == p.creating && q.date == p.date
                    && q.source == p.source && q.draft@ == value@,
                None => final(self).spec_picker() is None,
            },
            final(self).spec_objectives() == old(self).spec_objectives(),
            final(self).spec_links() == old(self).spec_links(),
    {
        match &mut self.picker {
            Some(p) => {
                p.draft = value;
            },
            None => {},
        }
    }

    /// The pilot picked `target` (or cleared the link, with `None`) for `source` on `date`:
    /// the picker closes, and the link the source had is to be cleared before the new one is
    /// set.
    pub fn apply_link(&mut self, date: &str, source: &LinkSource, target: Option<i64>) -> (r: LinkChange)
        ensures
            r.clear == linked_in(links_on(old(self).spec_links(), date@), *source),
            r.set == target,
            final(self).spec_picker() is None,
            final(self).spec_objectives() == old(self).spec_objectives(),
            final(self).spec_links() == old(self).spec_links(),
    {
        let existing = self.linked_id(date, source);
        self.close();
        LinkChange { clear: existing, set: target }
    }

    /// The pilot asked to create an objective from the create field: its trimmed text is the
    /// title, and a blank field creates nothing and keeps the picker as it is; otherwise the
    /// picker closes.
    pub fn take_create_title(&mut self) -> (r: Option<String>)
        ensures
            match old(self).spec_picker() {
                Some(p) => if trimmed(p.draft@).len() == 0 {
                    r is None && final(self).spec_picker() == old(self).spec_picker()
                } else {
                    (r matches Some(t) && t@ == trimmed(p.draft@)) && final(self).spec_picker() is None
                },
                None => r is None && final(self).spec_picker() is None,
            },
            final(self).spec_objectives() == old(self).spec_objectives(),
            final(self).spec_links() == old(self).spec_links(),
    {
        let title = match &self.picker {
            Some(p) => trimmed_chars(p.draft.as_str()),
            None => Vec::new(),
        };
        if title.len() == 0 {
            return None;
        }
        self.close();
        Some(string_from_chars(&title))
    }
}

impl Default for State {
    fn default() -> (r: State)
        ensures
            r.spec_objectives().len() == 0,
            r.spec_links().len() == 0,
            r.spec_picker() is None,
    {
        State::new()
    }
}

proof fn lemma_links_on_append(start: Seq<(String, Vec<ObjectiveLink>)>, days: Seq<(String, Vec<ObjectiveLink>)>, d: Seq<char>)
    ensures
        links_on(start + days, d) == (if exists|k: int| 0 <= k < days.len() && days[k].0@ == d {
            links_on(days, d)
        } else {
            links_on(start, d)
        }),
    decreases days.len(),
{
    if days.len() > 0 {
        assert((start + days).drop_last() =~= start + days.drop_last());
        lemma_links_on_append(start, days.drop_last(), d);
        if days.last().0@ != d {
            if exists|k: int| 0 <= k < days.len() && days[k].0@ == d {
                let k = choose|k: int| 0 <= k < days.len() && days[k].0@ == d;
                assert(days.drop_last()[k].0@ == d);
            }
        }
    } else {
        assert(start + days =~= start);
    }
}

} // verus!
