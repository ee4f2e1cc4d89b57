//! The stored shapes the captain's log rules read: the prompt configuration, a day's log entry
//! and the killmail debrief rows.

use vstd::prelude::*;
use crate::scopes::str_eq;

verus! {

/// A catalog answer slot with its own column in the day's log.
#[derive(Clone, Copy, Debug, PartialEq, Eq, Structural)]
pub enum AnswerKey {
    Blocked,
    Build,
    Combat,
    Goal,
    Next,
    Remember,
    Research,
    Skill,
}

impl AnswerKey {
    pub const ALL: [AnswerKey; 8] = [
        AnswerKey::Blocked,
        AnswerKey::Build,
        AnswerKey::Combat,
        AnswerKey::Goal,
        AnswerKey::Next,
        AnswerKey::Remember,
        AnswerKey::Research,
        AnswerKey::Skill,
    ];

    /// The slot's question id.
    pub open spec fn name(self) -> Seq<char> {
        match self {
            AnswerKey::Blocked => "blocked"@,
            AnswerKey::Build => "build"@,
            AnswerKey::Combat => "combat"@,
            AnswerKey::Goal => "goal"@,
            AnswerKey::Next => "next"@,
            AnswerKey::Remember => "remember"@,
            AnswerKey::Research => "research"@,
            AnswerKey::Skill => "skill"@,
        }
    }

    /// The slot's question id.
    pub fn as_key(self) -> (r: &'static str)
        ensures
            r@ == self.name(),
    {
        match self {
            AnswerKey::Blocked => "blocked",
            AnswerKey::Build => "build",
            AnswerKey::Combat => "combat",
            AnswerKey::Goal => "goal",
            AnswerKey::Next => "next",
            AnswerKey::Remember => "remember",
            AnswerKey::Research => "research",
            AnswerKey::Skill => "skill",
        }
    }

    /// The catalog slot whose question id is `id`, if any.
    pub open spec fn spec_from_key(id: Seq<char>) -> Option<AnswerKey> {
        if id == "blocked"@ {
            Some(AnswerKey::Blocked)
        } else if id == "build"@ {
            Some(AnswerKey::Build)
        } else if id == "combat"@ {
            Some(AnswerKey::Combat)
        } else if id == "goal"@ {
            Some(AnswerKey::Goal)
        } else if id == "next"@ {
            Some(AnswerKey::Next)
        } else if id == "remember"@ {
            Some(AnswerKey::Remember)
        } else if id == "research"@ {
            Some(AnswerKey::Research)
        } else if id == "skill"@ {
            Some(AnswerKey::Skill)
        } else {
            None
        }
    }

    /// The catalog slot whose question id is `id`, if any.
    pub fn from_key(id: &str) -> (r: Option<AnswerKey>)
        ensures
            r == AnswerKey::spec_from_key(id@),
    {
        if str_eq(id, "blocked") {
            Some(AnswerKey::Blocked)
        } else if str_eq(id, "build") {
            Some(AnswerKey::Build)
        } else if str_eq(id, "combat") {
            Some(AnswerKey::Combat)
        } else if str_eq(id, "goal") {
            Some(AnswerKey::Goal)
        } else if str_eq(id, "next") {
            Some(AnswerKey::Next)
        } else if str_eq(id, "remember") {
            Some(AnswerKey::Remember)
        } else if str_eq(id, "research") {
            Some(AnswerKey::Research)
        } else if str_eq(id, "skill") {
            Some(AnswerKey::Skill)
        } else {
            None
        }
    }
}

/// Reading a slot's question id back gives the same slot.
pub proof fn lemma_answer_key_round_trip(key: AnswerKey)
    ensures
        AnswerKey::spec_from_key(key.name()) == Some(key),
{
    reveal_strlit("blocked");
    reveal_strlit("build");
    reveal_strlit("combat");
    reveal_strlit("goal");
    reveal_strlit("next");
    reveal_strlit("remember");
    reveal_strlit("research");
    reveal_strlit("skill");
    assert("blocked"@.len() == 7);
    assert("build"@.len() == 5);
    assert("combat"@.len() == 6);
    assert("goal"@.len() == 4);
    assert("next"@.len() == 4);
    assert("remember"@.len() == 8);
    assert("research"@.len() == 8);
    assert("skill"@.len() == 5);
    assert("build"@[0] != "skill"@[0]);
    assert("goal"@[0] != "next"@[0]);
    assert("remember"@[2] != "research"@[2]);
    assert("build"@ != "blocked"@ && "build"@ != "skill"@);
    assert("goal"@ != "next"@);
    assert("remember"@ != "research"@);
}

#[derive(Clone, Copy, Debug, PartialEq, Eq, Structural)]
pub enum PromptSectionKind {
    Conditional,
    Free,
}

#[derive(Clone, Copy, Debug, PartialEq, Eq, Structural)]
pub enum PromptQuestionKind {
    Text,
}

/// Which built-in conditional questions the account has switched on.
#[derive(Clone, Copy, Debug, PartialEq, Eq, Structural)]
pub struct PromptTriggers {
    pub build: bool,
    pub combat: bool,
    pub skill: bool,
}

impl Default for PromptTriggers {
    /// Every conditional question off.
    fn default() -> (r: PromptTriggers)
        ensures
            r == (PromptTriggers { build: false, combat: false, skill: false }),
    {
        PromptTriggers { build: false, combat: false, skill: false }
    }
}

/// The triggers a section carries, all off when it carries none.
pub open spec fn triggers_or_off(t: Option<PromptTriggers>) -> PromptTriggers {
    match t {
        Some(t) => t,
        None => PromptTriggers { build: false, combat: false, skill: false },
    }
}

/// One configured question of a free section.
#[derive(Clone, Debug)]
pub struct PromptQuestion {
    pub id: String,
    pub kind: PromptQuestionKind,
    pub label: String,
    pub i18n_key: String,
    pub placeholder: String,
    pub required: bool,
}

/// A section of the day's questions: a free list of questions, or the built-in conditional set.
#[derive(Clone, Debug)]
pub struct PromptSection {
    pub id: String,
    pub kind: PromptSectionKind,
    pub label: String,
    pub i18n_key: String,
    pub questions: Vec<PromptQuestion>,
    pub triggers: Option<PromptTriggers>,
}

/// The account's question configuration, in display order.
#[derive(Clone, Debug)]
pub struct PromptConfig {
    pub sections: Vec<PromptSection>,
}

/// The stored log for one day: the catalog answers, the narrative, custom answers keyed by
/// question id, and whether the pilot marked the day complete.
#[derive(Clone, Debug)]
pub struct CaptainsLog {
    pub date: String,
    pub blocked: Option<String>,
    pub build: Option<String>,
    pub combat: Option<String>,
    pub goal: Option<String>,
    pub next: Option<String>,
    pub remember: Option<String>,
    pub research: Option<String>,
    pub skill: Option<String>,
    pub narrative: Option<String>,
    pub answers: Vec<(String, String)>,
    pub marked_complete: bool,
}

/// A pilot's debrief of one killmail.
#[derive(Clone, Debug)]
pub struct KillmailReport {
    pub character_id: i64,
    pub created_at: String,
    pub different: Option<String>,
    pub happened: String,
    pub killmail_id: i64,
    pub outcome: String,
    pub takeaway: Option<String>,
    pub updated_at: String,
}

/// The custom answer stored under `id`: the first entry with that id.
pub open spec fn lookup_answer(entries: Seq<(String, String)>, id: Seq<char>) -> Option<String>
    decreases entries.len(),
{
    if entries.len() == 0 {
        None
    } else if entries[0].0@ == id {
        Some(entries[0].1)
    } else {
        lookup_answer(entries.drop_first(), id)
    }
}

impl CaptainsLog {
    /// An empty log for `date`.
    pub fn empty(date: String) -> (r: CaptainsLog)
        ensures
            r.date == date,
            r.blocked is None && r.build is None && r.combat is None && r.goal is None,
            r.next is None && r.remember is None && r.research is None && r.skill is None,
            r.narrative is None,
            r.answers@.len() == 0,
            !r.marked_complete,
    {
        CaptainsLog {
            date,
            blocked: None,
            build: None,
            combat: None,
            goal: None,
            next: None,
            remember: None,
            research: None,
            skill: None,
            narrative: None,
            answers: Vec::new(),
            marked_complete: false,
        }
    }

    /// The text stored in a catalog slot.
    pub open spec fn typed_answer(self, key: AnswerKey) -> Option<String> {
        match key {
            AnswerKey::Blocked => self.blocked,
            AnswerKey::Build => self.build,
            AnswerKey::Combat => self.combat,
            AnswerKey::Goal => self.goal,
            AnswerKey::Next => self.next,
            AnswerKey::Remember => self.remember,
            AnswerKey::Research => self.research,
            AnswerKey::Skill => self.skill,
        }
    }

    /// The text stored in a catalog slot.
    pub fn answer_text(&self, key: AnswerKey) -> (r: Option<&String>)
        ensures
            r matches Some(t) ==> self.typed_answer(key) == Some(*t),
            r is None ==> self.typed_answer(key) is None,
    {
        let slot = match key {
            AnswerKey::Blocked => &self.blocked,
            AnswerKey::Build => &self.build,
            AnswerKey::Combat => &self.combat,
            AnswerKey::Goal => &self.goal,
            AnswerKey::Next => &self.next,
            AnswerKey::Remember => &self.remember,
            AnswerKey::Research => &self.research,
            AnswerKey::Skill => &self.skill,
        };
        match slot {
            Some(t) => Some(t),
            None => None,
        }
    }

    /// The custom answer stored under `id`.
    pub fn custom_answer(&self, id: &str) -> (r: Option<&String>)
        ensures
            r matches Some(t) ==> lookup_answer(self.answers@, id@) == Some(*t),
            r is None ==> lookup_answer(self.answers@, id@) is None,
    {
        let mut i: usize = 0;
        assert(self.answers@.skip(0) =~= self.answers@);
        while i < self.answers.len()
            invariant
                i <= self.answers.len(),
                lookup_answer(self.answers@, id@) == lookup_answer(self.answers@.skip(i as int), id@),
            decreases self.answers.len() - i,
        {
            assert(self.answers@.skip(i as int).drop_first() =~= self.answers@.skip(i + 1));
            if str_eq(self.answers[i].0.as_str(), id) {
                return Some(&self.answers[i].1);
            }
            i = i + 1;
        }
        None
    }

    /// Drops every custom answer stored under `id`.
    pub fn remove_answer(&mut self, id: &str)
        ensures
            lookup_answer(final(self).answers@, id@) is None,
            forall|other: Seq<char>| other != id@ ==> lookup_answer(final(self).answers@, other) == lookup_answer(old(self).answers@, other),
            forall|k: AnswerKey| final(self).typed_answer(k) == old(self).typed_answer(k),
            final(self).narrative == old(self).narrative,
            final(self).date == old(self).date,
            final(self).marked_complete == old(self).marked_complete,
    {
        let mut kept: Vec<(String, String)> = Vec::new();
        let mut i: usize = 0;
        assert(self.answers@.skip(0) =~= self.answers@);
        while i < self.answers.len()
            invariant
                i <= self.answers.len(),
                self.answers == old(self).answers,
                forall|j: int| 0 <= j < kept@.len() ==> kept@[j].0@ != id@,
                forall|other: Seq<char>| other != id@ ==> lookup_answer(self.answers@, other) == (match lookup_answer(kept@, other) {
                    Some(v) => Some(v),
                    None => lookup_answer(self.answers@.skip(i as int), other),
                }),
            decreases self.answers.len() - i,
        {
            let ghost before = kept@;
            let ghost x = self.answers@[i as int];
            assert(self.answers@.skip(i as int).drop_first() =~= self.answers@.skip(i + 1));
            assert(self.answers@.skip(i as int)[0] == x);
            if !str_eq(self.answers[i].0.as_str(), id) {
                let entry = (self.answers[i].0.clone(), self.answers[i].1.clone());
                kept.push(entry);
                assert forall|other: Seq<char>| other != id@ implies lookup_answer(kept@, other) == (match lookup_answer(before, other) {
                    Some(v) => Some(v),
                    None => if x.0@ == other {
                        Some(x.1)
                    } else {
                        None
                    },
                }) by {
                    lemma_lookup_push(before, entry, other);
                }
            }
            i = i + 1;
        }
        proof {
            lemma_lookup_absent(kept@, id@);
            assert forall|other: Seq<char>| other != id@ implies lookup_answer(kept@, other) == lookup_answer(self.answers@, other) by {
                assert(self.answers@.skip(self.answers@.len() as int).len() == 0);
            }
        }
        self.answers = kept;
    }

    /// Replaces the text of a catalog slot, leaving everything else as it was.
    pub fn set_typed(&mut self, key: AnswerKey, value: Option<String>)
        ensures
            final(self).typed_answer(key) == value,
            forall|k: AnswerKey| k != key ==> final(self).typed_answer(k) == old(self).typed_answer(k),
            final(self).answers == old(self).answers,
            final(self).narrative == old(self).narrative,
            final(self).date == old(self).date,
            final(self).marked_complete == old(self).marked_complete,
    {
        match key {
            AnswerKey::Blocked => self.blocked = value,
            AnswerKey::Build => self.build = value,
            AnswerKey::Combat => self.combat = value,
            AnswerKey::Goal => self.goal = value,
            AnswerKey::Next => self.next = value,
            AnswerKey::Remember => self.remember = value,
            AnswerKey::Research => self.research = value,
            AnswerKey::Skill => self.skill = value,
        }
    }

    /// Stores `value` as the custom answer under `id`, replacing an earlier one.
    pub fn insert_answer(&mut self, id: String, value: String)
        ensures
            lookup_answer(final(self).answers@, id@) == Some(value),
            forall|other: Seq<char>| other != id@ ==> lookup_answer(final(self).answers@, other) == lookup_answer(old(self).answers@, other),
            forall|k: AnswerKey| final(self).typed_answer(k) == old(self).typed_answer(k),
            final(self).narrative == old(self).narrative,
            final(self).date == old(self).date,
            final(self).marked_complete == old(self).marked_complete,
    {
        let mut i: usize = 0;
        while i < self.answers.len()
            invariant
                i <= self.answers.len(),
                *self == *old(self),
                forall|j: int| 0 <= j < i ==> self.answers@[j].0@ != id@,
            decreases self.answers.len() - i,
        {
            if str_eq(self.answers[i].0.as_str(), id.as_str()) {
                let ghost before = self.answers@;
                self.answers.set(i, (id, value));
                proof {
                    lemma_lookup_replace(before, i as int, id, value);
                }
                return;
            }
            i = i + 1;
        }
        let ghost before = self.answers@;
        self.answers.push((id, value));
        proof {
            lemma_lookup_append(before, id, value);
        }
    }
}

proof fn lemma_lookup_push(entries: Seq<(String, String)>, x: (String, String), other: Seq<char>)
    ensures
        lookup_answer(entries.push(x), other) == (match lookup_answer(entries, other) {
            Some(v) => Some(v),
            None => if x.0@ == other {
                Some(x.1)
            } else {
                None
            },
        }),
    decreases entries.len(),
{
    let pushed = entries.push(x);
    if entries.len() > 0 {
        assert(pushed.drop_first() =~= entries.drop_first().push(x));
        assert(pushed[0] == entries[0]);
        lemma_lookup_push(entries.drop_first(), x, other);
    } else {
        assert(pushed[0] == x);
        assert(pushed.drop_first().len() == 0);
        assert(lookup_answer(pushed.drop_first(), other) is None);
        assert(lookup_answer(entries, other) is None);
    }
}

proof fn lemma_lookup_absent(entries: Seq<(String, String)>, id: Seq<char>)
    requires
        forall|j: int| 0 <= j < entries.len() ==> entries[j].0@ != id,
    ensures
        lookup_answer(entries, id) is None,
    decreases entries.len(),
{
    if entries.len() > 0 {
        assert forall|j: int| 0 <= j < entries.drop_first().len() implies entries.drop_first()[j].0@ != id by {
            assert(entries.drop_first()[j] == entries[j + 1]);
        }
        lemma_lookup_absent(entries.drop_first(), id);
    }
}

proof fn lemma_lookup_replace(entries: Seq<(String, String)>, i: int, key: String, value: String)
    requires
        0 <= i < entries.len(),
        entries[i].0@ == key@,
        forall|j: int| 0 <= j < i ==> entries[j].0@ != key@,
    ensures
        lookup_answer(entries.update(i, (key, value)), key@) == Some(value),
        forall|other: Seq<char>| other != key@ ==> lookup_answer(entries.update(i, (key, value)), other) == lookup_answer(entries, other),
    decreases i,
{
    let updated = entries.update(i, (key, value));
    if i > 0 {
        lemma_lookup_replace(entries.drop_first(), i - 1, key, value);
        assert(updated.drop_first() =~= entries.drop_first().update(i - 1, (key, value)));
        assert(updated[0] == entries[0]);
    } else {
        assert(updated.drop_first() =~= entries.drop_first());
    }
    assert forall|other: Seq<char>| other != key@ implies lookup_answer(updated, other) == lookup_answer(entries, other) by {
        if i > 0 {
            assert(updated[0] == entries[0]);
            assert(lookup_answer(entries.drop_first().update(i - 1, (key, value)), other) == lookup_answer(entries.drop_first(), other));
        }
    }
}

proof fn lemma_lookup_append(entries: Seq<(String, String)>, key: String, value: String)
    requires
        forall|j: int| 0 <= j < entries.len() ==> entries[j].0@ != key@,
    ensures
        lookup_answer(entries.push((key, value)), key@) == Some(value),
        forall|other: Seq<char>| other != key@ ==> lookup_answer(entries.push((key, value)), other) == lookup_answer(entries, other),
    decreases entries.len(),
{
    let pushed = entries.push((key, value));
    if entries.len() > 0 {
        lemma_lookup_append(entries.drop_first(), key, value);
        assert(pushed.drop_first() =~= entries.drop_first().push((key, value)));
        assert(pushed[0] == entries[0]);
    }
    assert forall|other: Seq<char>| other != key@ implies lookup_answer(pushed, other) == lookup_answer(entries, other) by {
        if entries.len() > 0 {
            assert(pushed[0] == entries[0]);
            assert(lookup_answer(entries.drop_first().push((key, value)), other) == lookup_answer(entries.drop_first(), other));
        } else {
            assert(pushed[0].0@ == key@);
            assert(pushed.drop_first().len() == 0);
            assert(lookup_answer(pushed.drop_first(), other) is None);
        }
    }
}

/// A catalog question of the default configuration: blank literal label, fixed i18n key.
pub open spec fn is_catalog_question(q: PromptQuestion, id: Seq<char>, required: bool) -> bool {
    &&& q.id@ == id
    &&& q.kind == PromptQuestionKind::Text
    &&& q.label@.len() == 0
    &&& q.placeholder@.len() == 0
    &&& q.required == required
}

/// The shipped configuration: a core section (goal, required; remember; blocked), the
/// conditional built-ins with every trigger on, and a forward section (next; research).
pub open spec fn is_default_config(c: PromptConfig) -> bool {
    let s = c.sections@;
    &&& s.len() == 3
    &&& s[0].id@ == "core"@
    &&& s[0].kind == PromptSectionKind::Free
    &&& s[0].questions@.len() == 3
    &&& is_catalog_question(s[0].questions@[0], "goal"@, true)
    &&& is_catalog_question(s[0].questions@[1], "remember"@, false)
    &&& is_catalog_question(s[0].questions@[2], "blocked"@, false)
    &&& s[1].id@ == "conditional"@
    &&& s[1].kind == PromptSectionKind::Conditional
    &&& s[1].questions@.len() == 0
    &&& s[1].triggers == Some(PromptTriggers { build: true, combat: true, skill: true })
    &&& s[2].id@ == "forward"@
    &&& s[2].kind == PromptSectionKind::Free
    &&& s[2].questions@.len() == 2
    &&& is_catalog_question(s[2].questions@[0], "next"@, false)
    &&& is_catalog_question(s[2].questions@[1], "research"@, false)
}

fn catalog_question(id: &str, i18n_key: &str, required: bool) -> (q: PromptQuestion)
    ensures
        is_catalog_question(q, id@, required),
        q.i18n_key@ == i18n_key@,
{
    PromptQuestion {
        id: id.to_owned(),
        kind: PromptQuestionKind::Text,
        label: String::new(),
        i18n_key: i18n_key.to_owned(),
        placeholder: String::new(),
        required,
    }
}

fn section(
    id: &str,
    kind: PromptSectionKind,
    i18n_key: &str,
    questions: Vec<PromptQuestion>,
    triggers: Option<PromptTriggers>,
) -> (s: PromptSection)
    ensures
        s.id@ == id@,
        s.kind == kind,
        s.i18n_key@ == i18n_key@,
        s.label@.len() == 0,
        s.questions == questions,
        s.triggers == triggers,
{
    PromptSection {
        id: id.to_owned(),
        kind,
        label: String::new(),
        i18n_key: i18n_key.to_owned(),
        questions,
        triggers,
    }
}

impl Default for PromptConfig {
    /// The shipped question set.
    fn default() -> (r: PromptConfig)
        ensures
            is_default_config(r),
    {
        let core = vec![
            catalog_question("goal", "captains_log.questions.goal", true),
            catalog_question("remember", "captains_log.questions.remember", false),
            catalog_question("blocked", "captains_log.questions.blocked", false),
        ];
        let forward = vec![
            catalog_question("next", "captains_log.questions.next", false),
            catalog_question("research", "captains_log.questions.research", false),
        ];
        let sections = vec![
            section("core", PromptSectionKind::Free, "captains_log.sections.core", core, None),
            section(
                "conditional",
                PromptSectionKind::Conditional,
                "captains_log.sections.conditional",
                Vec::new(),
                Some(PromptTriggers { build: true, combat: true, skill: true }),
            ),
            section("forward", PromptSectionKind::Free, "captains_log.sections.forward", forward, None),
        ];
        PromptConfig { sections }
    }
}

} // verus!
