//! The captain's log questions of a day and whether the day's log is complete.
//!
//! A day's prompts are every configured free question, plus the built-in conditional questions
//! the account switched on, each shown only when the day's activity fired its trigger. A day is
//! complete when every required free question is answered and, with the combat trigger on, every
//! loss has a debrief, or when the pilot marked the day complete.

use vstd::prelude::*;
use crate::log_model::{
    lookup_answer, triggers_or_off, AnswerKey, CaptainsLog, KillmailReport, PromptConfig,
    PromptQuestion, PromptSection, PromptSectionKind,
};
use crate::scopes::str_eq;
use crate::text::{blank, is_blank};

verus! {

#[derive(Clone, Copy, Debug, PartialEq, Eq, Structural)]
pub enum PromptGroup {
    Conditional,
    Core,
    Custom,
    Forward,
}

/// The kind of day activity that makes a conditional question appear.
#[derive(Clone, Copy, Debug, PartialEq, Eq, Structural)]
pub enum Trigger {
    Engagement,
    Industry,
    Skills,
}

/// A loss one of the pilot's characters took, which wants a debrief.
#[derive(Clone, Copy, Debug, PartialEq, Eq, Structural)]
pub struct LossEngagement {
    pub character_id: i64,
    pub killmail_id: i64,
}

/// A skill a character finished training that day.
#[derive(Clone, Debug)]
pub struct SkillEvidence {
    pub character_id: i64,
    pub character_name: String,
    pub level: i64,
    pub skill: String,
}

/// An industry job a character delivered that day.
#[derive(Clone, Debug)]
pub struct IndustryEvidence {
    pub character_id: i64,
    pub character_name: String,
    pub product: String,
    pub product_type_id: Option<i64>,
    pub runs: i64,
}

/// What happened across the roster on one day.
#[derive(Clone, Debug)]
pub struct DayActivity {
    pub engagement_count: u32,
    pub industry: Vec<IndustryEvidence>,
    pub industry_count: u32,
    pub losses: Vec<LossEngagement>,
    pub skill_count: u32,
    pub skills: Vec<SkillEvidence>,
}

impl Default for DayActivity {
    /// A quiet day: no engagements, no deliveries, no skills.
    fn default() -> (r: DayActivity)
        ensures
            r.engagement_count == 0 && r.industry_count == 0 && r.skill_count == 0,
            r.industry@.len() == 0 && r.losses@.len() == 0 && r.skills@.len() == 0,
    {
        DayActivity {
            engagement_count: 0,
            industry: Vec::new(),
            industry_count: 0,
            losses: Vec::new(),
            skill_count: 0,
            skills: Vec::new(),
        }
    }
}

/// Text to show: either a literal the pilot wrote, or a i18n key to resolve.
#[derive(Clone, Debug)]
pub enum DisplayText {
    Literal(String),
    Key(String),
}

pub ghost enum DisplayTextView {
    Literal(Seq<char>),
    Key(Seq<char>),
}

impl View for DisplayText {
    type V = DisplayTextView;

    open spec fn view(&self) -> DisplayTextView {
        match self {
            DisplayText::Literal(s) => DisplayTextView::Literal(s@),
            DisplayText::Key(s) => DisplayTextView::Key(s@),
        }
    }
}

/// One question of the day, in the order the wizard asks it.
#[derive(Clone, Debug)]
pub struct Prompt {
    pub group: PromptGroup,
    pub i18n_key: String,
    pub id: String,
    pub key: Option<AnswerKey>,
    pub label: String,
    pub placeholder: String,
    pub required: bool,
    pub section_i18n_key: String,
    pub section_label: String,
    pub trigger: Option<Trigger>,
}

pub ghost struct PromptView {
    pub group: PromptGroup,
    pub i18n_key: Seq<char>,
    pub id: Seq<char>,
    pub key: Option<AnswerKey>,
    pub label: Seq<char>,
    pub placeholder: Seq<char>,
    pub required: bool,
    pub section_i18n_key: Seq<char>,
    pub section_label: Seq<char>,
    pub trigger: Option<Trigger>,
}

impl View for Prompt {
    type V = PromptView;

    open spec fn view(&self) -> PromptView {
        PromptView {
            group: self.group,
            i18n_key: self.i18n_key@,
            id: self.id@,
            key: self.key,
            label: self.label@,
            placeholder: self.placeholder@,
            required: self.required,
            section_i18n_key: self.section_i18n_key@,
            section_label: self.section_label@,
            trigger: self.trigger,
        }
    }
}

pub open spec fn prompt_views(ps: Seq<Prompt>) -> Seq<PromptView> {
    ps.map_values(|p: Prompt| p@)
}

/// Viewing a list with one more prompt views that prompt last.
pub proof fn lemma_prompt_views_push(ps: Seq<Prompt>, p: Prompt)
    ensures
        prompt_views(ps.push(p)) == prompt_views(ps).push(p@),
{
    assert(prompt_views(ps.push(p)) =~= prompt_views(ps).push(p@));
}

/// What a day still lacks before its log counts as complete.
#[derive(Clone, Debug)]
pub struct Completeness {
    pub missing_custom: Vec<DisplayText>,
    pub missing_debriefs: Vec<LossEngagement>,
    pub missing_prompts: Vec<AnswerKey>,
}

impl Completeness {
    /// Nothing missing.
    pub fn none_missing() -> (r: Completeness)
        ensures
            r.missing_custom@.len() == 0,
            r.missing_debriefs@.len() == 0,
            r.missing_prompts@.len() == 0,
    {
        Completeness {
            missing_custom: Vec::new(),
            missing_debriefs: Vec::new(),
            missing_prompts: Vec::new(),
        }
    }

    pub open spec fn spec_is_complete(self) -> bool {
        &&& self.missing_custom@.len() == 0
        &&& self.missing_debriefs@.len() == 0
        &&& self.missing_prompts@.len() == 0
    }

    /// Nothing is missing.
    pub fn is_complete(&self) -> (r: bool)
        ensures
            r == self.spec_is_complete(),
    {
        self.missing_custom.len() == 0 && self.missing_debriefs.len() == 0
            && self.missing_prompts.len() == 0
    }
}

impl Default for Completeness {
    /// Nothing missing.
    fn default() -> (r: Completeness)
        ensures
            r.spec_is_complete(),
    {
        Completeness::none_missing()
    }
}

impl Trigger {
    pub open spec fn spec_fired(self, activity: DayActivity) -> bool {
        match self {
            Trigger::Engagement => activity.engagement_count > 0,
            Trigger::Industry => activity.industry_count > 0,
            Trigger::Skills => activity.skill_count > 0,
        }
    }

    /// The day's activity includes this trigger's kind of event.
    pub fn fired(self, activity: &DayActivity) -> (r: bool)
        ensures
            r == self.spec_fired(*activity),
            self == Trigger::Engagement ==> r == (activity.engagement_count > 0),
            self == Trigger::Industry ==> r == (activity.industry_count > 0),
            self == Trigger::Skills ==> r == (activity.skill_count > 0),
    {
        match self {
            Trigger::Engagement => activity.engagement_count > 0,
            Trigger::Industry => activity.industry_count > 0,
            Trigger::Skills => activity.skill_count > 0,
        }
    }
}

/// An untriggered prompt always applies; a triggered one applies when its trigger fired.
pub open spec fn applies(p: PromptView, activity: DayActivity) -> bool {
    match p.trigger {
        None => true,
        Some(t) => t.spec_fired(activity),
    }
}

impl Prompt {
    /// Whether the prompt belongs in the day's wizard.
    pub fn applies(&self, activity: &DayActivity) -> (r: bool)
        ensures
            r == applies(self@, *activity),
    {
        match self.trigger {
            None => true,
            Some(trigger) => trigger.fired(activity),
        }
    }
}

/// The group of a free section's questions, from the section id.
pub open spec fn spec_free_group(section_id: Seq<char>) -> PromptGroup {
    if section_id == "core"@ {
        PromptGroup::Core
    } else if section_id == "forward"@ {
        PromptGroup::Forward
    } else {
        PromptGroup::Custom
    }
}

/// The group of a free section's questions: `core` and `forward` are the default config's roles,
/// any other section holds custom questions.
pub fn free_group(section_id: &str) -> (r: PromptGroup)
    ensures
        r == spec_free_group(section_id@),
        section_id@ == "core"@ ==> r == PromptGroup::Core,
        section_id@ == "forward"@ ==> r == PromptGroup::Forward,
        section_id@ != "core"@ && section_id@ != "forward"@ ==> r == PromptGroup::Custom,
{
    proof {
        reveal_strlit("core");
        reveal_strlit("forward");
        assert("core"@.len() == 4);
        assert("forward"@.len() == 7);
    }
    if str_eq(section_id, "core") {
        PromptGroup::Core
    } else if str_eq(section_id, "forward") {
        PromptGroup::Forward
    } else {
        PromptGroup::Custom
    }
}

/// The prompt of one configured question of a free section.
pub open spec fn question_view(section: PromptSection, q: PromptQuestion) -> PromptView {
    PromptView {
        group: spec_free_group(section.id@),
        i18n_key: q.i18n_key@,
        id: q.id@,
        key: AnswerKey::spec_from_key(q.id@),
        label: q.label@,
        placeholder: q.placeholder@,
        required: q.required,
        section_i18n_key: section.i18n_key@,
        section_label: section.label@,
        trigger: None,
    }
}

/// A built-in conditional prompt: its display text comes from fixed i18n keys, so its
/// own label, placeholder and i18n key stay blank.
pub open spec fn builtin_view(
    section: PromptSection,
    key: AnswerKey,
    trigger: Trigger,
    required: bool,
) -> PromptView {
    PromptView {
        group: PromptGroup::Conditional,
        i18n_key: seq![],
        id: key.name(),
        key: Some(key),
        label: seq![],
        placeholder: seq![],
        required,
        section_i18n_key: section.i18n_key@,
        section_label: section.label@,
        trigger: Some(trigger),
    }
}

/// The prompts of a free section, one per configured question.
pub open spec fn free_views(section: PromptSection) -> Seq<PromptView> {
    Seq::new(section.questions@.len(), |j: int| question_view(section, section.questions@[j]))
}

/// The built-in prompts a conditional section enables, in combat, build, skill order.
pub open spec fn conditional_views(section: PromptSection) -> Seq<PromptView> {
    let t = triggers_or_off(section.triggers);
    (if t.combat {
        seq![builtin_view(section, AnswerKey::Combat, Trigger::Engagement, true)]
    } else {
        seq![]
    }) + (if t.build {
        seq![builtin_view(section, AnswerKey::Build, Trigger::Industry, false)]
    } else {
        seq![]
    }) + (if t.skill {
        seq![builtin_view(section, AnswerKey::Skill, Trigger::Skills, false)]
    } else {
        seq![]
    })
}

/// The prompts of one section, in order.
pub open spec fn section_views(section: PromptSection) -> Seq<PromptView> {
    match section.kind {
        PromptSectionKind::Free => free_views(section),
        PromptSectionKind::Conditional => conditional_views(section),
    }
}

/// The prompts of every section, section by section.
pub open spec fn config_views(sections: Seq<PromptSection>) -> Seq<PromptView>
    decreases sections.len(),
{
    if sections.len() == 0 {
        seq![]
    } else {
        config_views(sections.drop_last()) + section_views(sections.last())
    }
}

/// The prompts of `ps` that apply to the day's activity, in order.
pub open spec fn applicable(ps: Seq<PromptView>, activity: DayActivity) -> Seq<PromptView>
    decreases ps.len(),
{
    if ps.len() == 0 {
        seq![]
    } else if applies(ps.last(), activity) {
        applicable(ps.drop_last(), activity).push(ps.last())
    } else {
        applicable(ps.drop_last(), activity)
    }
}

/// The prompts of `ps` other than the combat slot, in order.
pub open spec fn without_combat(ps: Seq<PromptView>) -> Seq<PromptView>
    decreases ps.len(),
{
    if ps.len() == 0 {
        seq![]
    } else if ps.last().key != Some(AnswerKey::Combat) {
        without_combat(ps.drop_last()).push(ps.last())
    } else {
        without_combat(ps.drop_last())
    }
}

/// `pos` picks the items of `a` out of `b`: at increasing positions, each the same item.
pub open spec fn picks(pos: Seq<int>, a: Seq<PromptView>, b: Seq<PromptView>) -> bool {
    &&& pos.len() == a.len()
    &&& forall|i: int| 0 <= i < pos.len() ==> 0 <= #[trigger] pos[i] < b.len() && a[i] == b[pos[i]]
    &&& forall|i: int, j: int| 0 <= i < j < pos.len() ==> #[trigger] pos[i] < #[trigger] pos[j]
}

/// `a` is a subsequence of `b`: its items are items of `b`, picked in increasing positions.
pub open spec fn is_subsequence(a: Seq<PromptView>, b: Seq<PromptView>) -> bool {
    exists|pos: Seq<int>| #[trigger] picks(pos, a, b)
}

proof fn lemma_without_combat_push(ps: Seq<PromptView>, p: PromptView)
    ensures
        without_combat(ps.push(p)) == (if p.key != Some(AnswerKey::Combat) {
            without_combat(ps).push(p)
        } else {
            without_combat(ps)
        }),
{
    assert(ps.push(p).drop_last() =~= ps);
}

proof fn lemma_applicable_subsequence(ps: Seq<PromptView>, activity: DayActivity)
    ensures
        is_subsequence(without_combat(applicable(ps, activity)), without_combat(ps)),
    decreases ps.len(),
{
    let lhs = without_combat(applicable(ps, activity));
    let rhs = without_combat(ps);
    if ps.len() == 0 {
        let pos = Seq::<int>::empty();
        assert(picks(pos, lhs, rhs));
    } else {
        let prev = ps.drop_last();
        let p = ps.last();
        assert(prev.push(p) =~= ps);
        lemma_applicable_subsequence(prev, activity);
        let l0 = without_combat(applicable(prev, activity));
        let r0 = without_combat(prev);
        let pos0 = choose|pos: Seq<int>| #[trigger] picks(pos, l0, r0);
        lemma_without_combat_push(prev, p);
        if applies(p, activity) {
            assert(applicable(ps, activity) == applicable(prev, activity).push(p));
            lemma_without_combat_push(applicable(prev, activity), p);
        } else {
            assert(applicable(ps, activity) == applicable(prev, activity));
        }
        if p.key != Some(AnswerKey::Combat) {
            assert(rhs == r0.push(p));
            if applies(p, activity) {
                assert(lhs == l0.push(p));
                let pos = pos0.push(r0.len() as int);
                assert forall|i: int| 0 <= i < pos.len() implies 0 <= #[trigger] pos[i] < rhs.len() && lhs[i] == rhs[pos[i]] by {
                    if i < pos0.len() {
                        assert(pos[i] == pos0[i]);
                    }
                }
                assert forall|i: int, j: int| 0 <= i < j < pos.len() implies #[trigger] pos[i] < #[trigger] pos[j] by {
                    if j < pos0.len() {
                        assert(pos[i] == pos0[i] && pos[j] == pos0[j]);
                    } else {
                        assert(pos[i] == pos0[i]);
                    }
                }
                assert(picks(pos, lhs, rhs));
            } else {
                assert(lhs == l0);
                assert forall|i: int| 0 <= i < pos0.len() implies 0 <= #[trigger] pos0[i] < rhs.len() && lhs[i] == rhs[pos0[i]] by {
                }
                assert(picks(pos0, lhs, rhs));
            }
        } else {
            assert(rhs == r0);
            assert(lhs == l0);
            assert(picks(pos0, lhs, rhs));
        }
    }
}

proof fn lemma_all_apply(ps: Seq<PromptView>, activity: DayActivity)
    requires
        activity.engagement_count > 0,
        activity.industry_count > 0,
        activity.skill_count > 0,
    ensures
        applicable(ps, activity) == ps,
    decreases ps.len(),
{
    if ps.len() > 0 {
        lemma_all_apply(ps.drop_last(), activity);
        assert(applies(ps.last(), activity));
        assert(ps.drop_last().push(ps.last()) =~= ps);
    }
}

/// The day's prompts, combat left out, are the past view's field prompts or a part of them in
/// the same order; on a day with engagements, industry and finished skills they are all of them.
pub proof fn lemma_day_prompts_are_field_prompts(config: PromptConfig, activity: DayActivity)
    ensures
        is_subsequence(
            without_combat(applicable(config_views(config.sections@), activity)),
            without_combat(config_views(config.sections@)),
        ),
        activity.engagement_count > 0 && activity.industry_count > 0 && activity.skill_count > 0
            ==> without_combat(applicable(config_views(config.sections@), activity))
                == without_combat(config_views(config.sections@)),
{
    lemma_applicable_subsequence(config_views(config.sections@), activity);
    if activity.engagement_count > 0 && activity.industry_count > 0 && activity.skill_count > 0 {
        lemma_all_apply(config_views(config.sections@), activity);
    }
}

proof fn lemma_applicable_members(ps: Seq<PromptView>, activity: DayActivity)
    ensures
        forall|x: PromptView| applicable(ps, activity).contains(x) <==> ps.contains(x) && applies(x, activity),
    decreases ps.len(),
{
    if ps.len() > 0 {
        let prev = ps.drop_last();
        lemma_applicable_members(prev, activity);
        assert(prev.push(ps.last()) =~= ps);
        assert forall|x: PromptView| applicable(ps, activity).contains(x) <==> ps.contains(x) && applies(x, activity) by {
            if ps.contains(x) {
                let i = choose|i: int| 0 <= i < ps.len() && ps[i] == x;
                if i < prev.len() {
                    assert(prev[i] == x);
                    assert(prev.contains(x));
                }
            }
            if prev.contains(x) {
                let i = choose|i: int| 0 <= i < prev.len() && prev[i] == x;
                assert(ps[i] == x);
            }
            if applies(ps.last(), activity) {
                let kept = applicable(prev, activity).push(ps.last());
                if applicable(prev, activity).contains(x) {
                    let i = choose|i: int| 0 <= i < applicable(prev, activity).len() && applicable(prev, activity)[i] == x;
                    assert(kept[i] == x);
                }
                if kept.contains(x) {
                    let i = choose|i: int| 0 <= i < kept.len() && kept[i] == x;
                    if i < applicable(prev, activity).len() {
                        assert(applicable(prev, activity)[i] == x);
                        assert(applicable(prev, activity).contains(x));
                    }
                }
                assert(kept[kept.len() - 1] == ps.last());
                assert(ps[ps.len() - 1] == ps.last());
            }
        }
    }
}

/// A triggered prompt is asked exactly when the day's activity counts its own kind of event:
/// a combat prompt when there were engagements, a build prompt when industry was delivered, a
/// skill prompt when a skill finished, whatever the other counts are; untriggered prompts are
/// always asked.
pub proof fn lemma_prompts_follow_their_own_trigger(ps: Seq<PromptView>, activity: DayActivity)
    ensures
        forall|x: PromptView| #[trigger] applicable(ps, activity).contains(x) <==> ps.contains(x) && match x.trigger {
            None => true,
            Some(Trigger::Engagement) => activity.engagement_count > 0,
            Some(Trigger::Industry) => activity.industry_count > 0,
            Some(Trigger::Skills) => activity.skill_count > 0,
        },
{
    lemma_applicable_members(ps, activity);
    assert forall|x: PromptView| #[trigger] applicable(ps, activity).contains(x) <==> ps.contains(x) && match x.trigger {
        None => true,
        Some(Trigger::Engagement) => activity.engagement_count > 0,
        Some(Trigger::Industry) => activity.industry_count > 0,
        Some(Trigger::Skills) => activity.skill_count > 0,
    } by {
        assert(applicable(ps, activity).contains(x) == (ps.contains(x) && applies(x, activity)));
    }
}

/// The questions of a free section take their group from the section's id: those of `core`
/// are core prompts, those of `forward` forward-looking ones, and those of any other section
/// custom questions.
pub proof fn lemma_free_section_groups(section: PromptSection)
    requires
        section.kind == PromptSectionKind::Free,
    ensures
        forall|i: int| 0 <= i < section_views(section).len() ==> {
            &&& section.id@ == "core"@ ==> #[trigger] section_views(section)[i].group == PromptGroup::Core
            &&& section.id@ == "forward"@ ==> section_views(section)[i].group == PromptGroup::Forward
            &&& (section.id@ != "core"@ && section.id@ != "forward"@) ==> section_views(section)[i].group
                == PromptGroup::Custom
        },
{
    assert forall|i: int| 0 <= i < section_views(section).len() implies {
        &&& section.id@ == "core"@ ==> #[trigger] section_views(section)[i].group == PromptGroup::Core
        &&& section.id@ == "forward"@ ==> section_views(section)[i].group == PromptGroup::Forward
        &&& (section.id@ != "core"@ && section.id@ != "forward"@) ==> section_views(section)[i].group
            == PromptGroup::Custom
    } by {
        assert(section_views(section) == free_views(section));
        assert(section_views(section)[i] == question_view(section, section.questions@[i]));
        reveal_strlit("core");
        reveal_strlit("forward");
        assert("core"@.len() == 4);
        assert("forward"@.len() == 7);
    }
}

/// Keeping the applicable prompts of two lists in turn keeps those of the joined list.
pub proof fn lemma_applicable_concat(a: Seq<PromptView>, b: Seq<PromptView>, activity: DayActivity)
    ensures
        applicable(a + b, activity) == applicable(a, activity) + applicable(b, activity),
    decreases b.len(),
{
    if b.len() == 0 {
        assert(a + b =~= a);
        assert(applicable(a, activity) + applicable(b, activity) =~= applicable(a, activity));
    } else {
        assert((a + b).drop_last() =~= a + b.drop_last());
        assert((a + b).last() == b.last());
        lemma_applicable_concat(a, b.drop_last(), activity);
        if applies(b.last(), activity) {
            assert(applicable(a, activity) + applicable(b, activity) =~= (applicable(a, activity)
                + applicable(b.drop_last(), activity)).push(b.last()));
        }
    }
}

/// Leaving out the combat prompt distributes over joining two lists.
pub proof fn lemma_without_combat_concat(a: Seq<PromptView>, b: Seq<PromptView>)
    ensures
        without_combat(a + b) == without_combat(a) + without_combat(b),
    decreases b.len(),
{
    if b.len() == 0 {
        assert(a + b =~= a);
        assert(without_combat(a) + without_combat(b) =~= without_combat(a));
    } else {
        assert((a + b).drop_last() =~= a + b.drop_last());
        assert((a + b).last() == b.last());
        lemma_without_combat_concat(a, b.drop_last());
        if b.last().key != Some(AnswerKey::Combat) {
            assert(without_combat(a) + without_combat(b) =~= (without_combat(a) + without_combat(
                b.drop_last(),
            )).push(b.last()));
        }
    }
}

/// The prompt of one built-in conditional question.
pub fn builtin(section: &PromptSection, key: AnswerKey, trigger: Trigger, required: bool) -> (r: Prompt)
    ensures
        r@ == builtin_view(*section, key, trigger, required),
{
    Prompt {
        group: PromptGroup::Conditional,
        i18n_key: String::new(),
        id: key.as_key().to_owned(),
        key: Some(key),
        label: String::new(),
        placeholder: String::new(),
        required,
        section_i18n_key: section.i18n_key.clone(),
        section_label: section.label.clone(),
        trigger: Some(trigger),
    }
}

/// The prompts of a free section, one per configured question.
pub fn free_prompts(section: &PromptSection) -> (r: Vec<Prompt>)
    ensures
        prompt_views(r@) == free_views(*section),
{
    let group = free_group(section.id.as_str());
    let mut out: Vec<Prompt> = Vec::new();
    let mut i: usize = 0;
    while i < section.questions.len()
        invariant
            i <= section.questions.len(),
            group == spec_free_group(section.id@),
            prompt_views(out@) == free_views(*section).take(i as int),
        decreases section.questions.len() - i,
    {
        let question = &section.questions[i];
        let prompt = Prompt {
            group,
            i18n_key: question.i18n_key.clone(),
            id: question.id.clone(),
            key: AnswerKey::from_key(question.id.as_str()),
            label: question.label.clone(),
            placeholder: question.placeholder.clone(),
            required: question.required,
            section_i18n_key: section.i18n_key.clone(),
            section_label: section.label.clone(),
            trigger: None,
        };
        assert(prompt@ == question_view(*section, section.questions@[i as int]));
        let ghost before = out@;
        proof {
            lemma_prompt_views_push(before, prompt);
        }
        out.push(prompt);
        proof {
            assert forall|j: int| 0 <= j < i + 1 implies #[trigger] prompt_views(out@)[j] == free_views(*section).take(i + 1)[j] by {
                if j < i {
                    assert(prompt_views(before)[j] == free_views(*section).take(i as int)[j]);
                }
            }
            assert(prompt_views(out@) =~= free_views(*section).take(i + 1));
        }
        i = i + 1;
    }
    assert(free_views(*section).take(section.questions.len() as int) =~= free_views(*section));
    out
}

/// The built-in prompts a conditional section switched on: combat (required), then build and
/// skill (optional).
pub fn conditional_prompts(section: &PromptSection) -> (r: Vec<Prompt>)
    ensures
        prompt_views(r@) == conditional_views(*section),
{
    let triggers = match section.triggers {
        Some(t) => t,
        None => PromptTriggers_off(),
    };
    let mut out: Vec<Prompt> = Vec::new();
    if triggers.combat {
        out.push(builtin(section, AnswerKey::Combat, Trigger::Engagement, true));
    }
    if triggers.build {
        out.push(builtin(section, AnswerKey::Build, Trigger::Industry, false));
    }
    if triggers.skill {
        out.push(builtin(section, AnswerKey::Skill, Trigger::Skills, false));
    }
    assert(prompt_views(out@) =~= conditional_views(*section));
    out
}

#[allow(non_snake_case)]
fn PromptTriggers_off() -> (r: crate::log_model::PromptTriggers)
    ensures
        r == triggers_or_off(None),
{
    crate::log_model::PromptTriggers { build: false, combat: false, skill: false }
}

/// The prompts of one section.
pub fn section_prompts(section: &PromptSection) -> (r: Vec<Prompt>)
    ensures
        prompt_views(r@) == section_views(*section),
{
    match section.kind {
        PromptSectionKind::Conditional => conditional_prompts(section),
        PromptSectionKind::Free => free_prompts(section),
    }
}

/// Appends the prompts of `prompts` that apply to the day's activity.
fn append_applicable(out: &mut Vec<Prompt>, prompts: &Vec<Prompt>, activity: &DayActivity)
    ensures
        prompt_views(final(out)@) == prompt_views(old(out)@) + applicable(prompt_views(prompts@), *activity),
{
    let ghost done = prompt_views(out@);
    let ghost sv = prompt_views(prompts@);
    let mut k: usize = 0;
    while k < prompts.len()
        invariant
            k <= prompts.len(),
            sv == prompt_views(prompts@),
            prompt_views(out@) == done + applicable(sv.take(k as int), *activity),
        decreases prompts.len() - k,
    {
        assert(sv.take(k + 1).drop_last() =~= sv.take(k as int));
        assert(prompts@[k as int]@ == sv[k as int]);
        assert(sv.take(k + 1).last() == sv[k as int]);
        if prompts[k].applies(activity) {
            let copy = prompts[k].clone_prompt();
            proof {
                lemma_prompt_views_push(out@, copy);
            }
            out.push(copy);
            assert(applicable(sv.take(k + 1), *activity) == applicable(sv.take(k as int), *activity).push(sv[k as int]));
            assert(prompt_views(out@) =~= done + applicable(sv.take(k + 1), *activity));
        }
        k = k + 1;
    }
    assert(sv.take(prompts.len() as int) =~= sv);
}

/// Appends the prompts of `prompts` other than the combat slot.
fn append_without_combat(out: &mut Vec<Prompt>, prompts: &Vec<Prompt>)
    ensures
        prompt_views(final(out)@) == prompt_views(old(out)@) + without_combat(prompt_views(prompts@)),
{
    let ghost done = prompt_views(out@);
    let ghost sv = prompt_views(prompts@);
    let mut k: usize = 0;
    while k < prompts.len()
        invariant
            k <= prompts.len(),
            sv == prompt_views(prompts@),
            prompt_views(out@) == done + without_combat(sv.take(k as int)),
        decreases prompts.len() - k,
    {
        assert(sv.take(k + 1).drop_last() =~= sv.take(k as int));
        assert(prompts@[k as int]@ == sv[k as int]);
        assert(sv.take(k + 1).last() == sv[k as int]);
        let is_combat = match prompts[k].key {
            Some(AnswerKey::Combat) => true,
            _ => false,
        };
        if !is_combat {
            let copy = prompts[k].clone_prompt();
            proof {
                lemma_prompt_views_push(out@, copy);
            }
            out.push(copy);
            assert(without_combat(sv.take(k + 1)) == without_combat(sv.take(k as int)).push(sv[k as int]));
            assert(prompt_views(out@) =~= done + without_combat(sv.take(k + 1)));
        }
        k = k + 1;
    }
    assert(sv.take(prompts.len() as int) =~= sv);
}

/// The wizard's ordered prompts for the day: every configured question, plus the enabled
/// conditional built-ins whose trigger the day's activity fired.
pub fn prompts_for_day(config: &PromptConfig, activity: &DayActivity) -> (r: Vec<Prompt>)
    ensures
        prompt_views(r@) == applicable(config_views(config.sections@), *activity),
{
    let mut out: Vec<Prompt> = Vec::new();
    let mut i: usize = 0;
    while i < config.sections.len()
        invariant
            i <= config.sections.len(),
            prompt_views(out@) == applicable(config_views(config.sections@.take(i as int)), *activity),
        decreases config.sections.len() - i,
    {
        let prompts = section_prompts(&config.sections[i]);
        append_applicable(&mut out, &prompts, activity);
        proof {
            let sv = section_views(config.sections@[i as int]);
            assert(config.sections@.take(i + 1).drop_last() =~= config.sections@.take(i as int));
            lemma_applicable_concat(config_views(config.sections@.take(i as int)), sv, *activity);
        }
        i = i + 1;
    }
    assert(config.sections@.take(config.sections.len() as int) =~= config.sections@);
    out
}

/// The past view's ordered prompts: every configured question plus the enabled conditional
/// built-ins other than combat, which loss debriefs cover, with no activity gate.
pub fn all_field_prompts(config: &PromptConfig) -> (r: Vec<Prompt>)
    ensures
        prompt_views(r@) == without_combat(config_views(config.sections@)),
{
    let mut out: Vec<Prompt> = Vec::new();
    let mut i: usize = 0;
    while i < config.sections.len()
        invariant
            i <= config.sections.len(),
            prompt_views(out@) == without_combat(config_views(config.sections@.take(i as int))),
        decreases config.sections.len() - i,
    {
        let prompts = section_prompts(&config.sections[i]);
        append_without_combat(&mut out, &prompts);
        proof {
            let sv = section_views(config.sections@[i as int]);
            assert(config.sections@.take(i + 1).drop_last() =~= config.sections@.take(i as int));
            lemma_without_combat_concat(config_views(config.sections@.take(i as int)), sv);
        }
        i = i + 1;
    }
    assert(config.sections@.take(config.sections.len() as int) =~= config.sections@);
    out
}

impl Prompt {
    /// A copy of the prompt.
    pub fn clone_prompt(&self) -> (r: Prompt)
        ensures
            r@ == self@,
    {
        Prompt {
            group: self.group,
            i18n_key: self.i18n_key.clone(),
            id: self.id.clone(),
            key: self.key,
            label: self.label.clone(),
            placeholder: self.placeholder.clone(),
            required: self.required,
            section_i18n_key: self.section_i18n_key.clone(),
            section_label: self.section_label.clone(),
            trigger: self.trigger,
        }
    }
}

/// The log of a day, when there is one.
pub open spec fn log_of(log: Option<&CaptainsLog>) -> Option<CaptainsLog> {
    match log {
        Some(l) => Some(*l),
        None => None,
    }
}

/// The stored answer to a question: its catalog slot when it has one, else its custom entry.
pub open spec fn answer_of(log: CaptainsLog, id: Seq<char>, key: Option<AnswerKey>) -> Option<String> {
    match key {
        Some(k) => log.typed_answer(k),
        None => lookup_answer(log.answers@, id),
    }
}

/// A question counts as answered when its stored answer holds more than whitespace.
pub open spec fn answered(log: Option<CaptainsLog>, id: Seq<char>, key: Option<AnswerKey>) -> bool {
    match log {
        None => false,
        Some(l) => match answer_of(l, id, key) {
            Some(t) => !blank(t@),
            None => false,
        },
    }
}

/// A required question left unanswered.
pub open spec fn question_missing(q: PromptQuestion, log: Option<CaptainsLog>) -> bool {
    q.required && !answered(log, q.id@, AnswerKey::spec_from_key(q.id@))
}

/// How a missing custom question is named: its literal label, or its i18n key when set.
pub open spec fn missing_label_view(q: PromptQuestion) -> DisplayTextView {
    if q.i18n_key@.len() == 0 {
        DisplayTextView::Literal(q.label@)
    } else {
        DisplayTextView::Key(q.i18n_key@)
    }
}

/// The missing catalog slots and the missing custom questions among `qs`, in order.
pub open spec fn missing_in_questions(qs: Seq<PromptQuestion>, log: Option<CaptainsLog>) -> (
    Seq<AnswerKey>,
    Seq<DisplayTextView>,
)
    decreases qs.len(),
{
    if qs.len() == 0 {
        (seq![], seq![])
    } else {
        let (keys, custom) = missing_in_questions(qs.drop_last(), log);
        let q = qs.last();
        if question_missing(q, log) {
            match AnswerKey::spec_from_key(q.id@) {
                Some(key) => (keys.push(key), custom),
                None => (keys, custom.push(missing_label_view(q))),
            }
        } else {
            (keys, custom)
        }
    }
}

/// The missing catalog slots and custom questions of every free section, in order.
pub open spec fn missing_in_sections(sections: Seq<PromptSection>, log: Option<CaptainsLog>) -> (
    Seq<AnswerKey>,
    Seq<DisplayTextView>,
)
    decreases sections.len(),
{
    if sections.len() == 0 {
        (seq![], seq![])
    } else {
        let (keys, custom) = missing_in_sections(sections.drop_last(), log);
        let s = sections.last();
        if s.kind == PromptSectionKind::Free {
            let (k2, c2) = missing_in_questions(s.questions@, log);
            (keys + k2, custom + c2)
        } else {
            (keys, custom)
        }
    }
}

/// The first conditional section of the configuration.
pub open spec fn first_conditional(sections: Seq<PromptSection>) -> Option<PromptSection>
    decreases sections.len(),
{
    if sections.len() == 0 {
        None
    } else if sections[0].kind == PromptSectionKind::Conditional {
        Some(sections[0])
    } else {
        first_conditional(sections.drop_first())
    }
}

/// The combat trigger of the first conditional section; off when there is none.
pub open spec fn spec_combat_enabled(config: PromptConfig) -> bool {
    match first_conditional(config.sections@) {
        Some(s) => triggers_or_off(s.triggers).combat,
        None => false,
    }
}

/// Some report debriefs this loss: same character, same killmail.
pub open spec fn reported(reports: Seq<KillmailReport>, loss: LossEngagement) -> bool {
    exists|i: int|
        0 <= i < reports.len() && #[trigger] reports[i].character_id == loss.character_id
            && reports[i].killmail_id == loss.killmail_id
}

/// The losses that no report debriefs, in order.
pub open spec fn unreported(losses: Seq<LossEngagement>, reports: Seq<KillmailReport>) -> Seq<LossEngagement>
    decreases losses.len(),
{
    if losses.len() == 0 {
        seq![]
    } else if reported(reports, losses.last()) {
        unreported(losses.drop_last(), reports)
    } else {
        unreported(losses.drop_last(), reports).push(losses.last())
    }
}

pub open spec fn text_views(v: Seq<DisplayText>) -> Seq<DisplayTextView> {
    v.map_values(|t: DisplayText| t@)
}

/// Whether the combat trigger is on.
pub fn combat_enabled(config: &PromptConfig) -> (r: bool)
    ensures
        r == spec_combat_enabled(*config),
{
    let mut i: usize = 0;
    assert(config.sections@.skip(0) =~= config.sections@);
    while i < config.sections.len()
        invariant
            i <= config.sections.len(),
            first_conditional(config.sections@) == first_conditional(config.sections@.skip(i as int)),
        decreases config.sections.len() - i,
    {
        assert(config.sections@.skip(i as int).drop_first() =~= config.sections@.skip(i + 1));
        match config.sections[i].kind {
            PromptSectionKind::Conditional => {
                return match config.sections[i].triggers {
                    Some(t) => t.combat,
                    None => false,
                };
            },
            PromptSectionKind::Free => {},
        }
        i = i + 1;
    }
    false
}

/// Whether some report debriefs the loss.
pub fn has_report(reports: &[KillmailReport], loss: &LossEngagement) -> (r: bool)
    ensures
        r == reported(reports@, *loss),
{
    let mut i: usize = 0;
    while i < reports.len()
        invariant
            i <= reports.len(),
            forall|j: int|
                0 <= j < i ==> !(#[trigger] reports@[j].character_id == loss.character_id
                    && reports@[j].killmail_id == loss.killmail_id),
        decreases reports.len() - i,
    {
        if reports[i].character_id == loss.character_id && reports[i].killmail_id == loss.killmail_id {
            return true;
        }
        i = i + 1;
    }
    false
}

/// Whether the question has an answer holding more than whitespace.
pub fn is_answered(log: Option<&CaptainsLog>, id: &str, key: Option<AnswerKey>) -> (r: bool)
    ensures
        r == answered(log_of(log), id@, key),
{
    let log = match log {
        Some(log) => log,
        None => return false,
    };
    let text = match key {
        Some(key) => log.answer_text(key),
        None => log.custom_answer(id),
    };
    match text {
        Some(text) => !is_blank(text.as_str()),
        None => false,
    }
}

/// How a missing custom question is named.
pub fn missing_label(question: &PromptQuestion) -> (r: DisplayText)
    ensures
        r@ == missing_label_view(*question),
{
    if question.i18n_key.as_str().is_empty() {
        DisplayText::Literal(question.label.clone())
    } else {
        DisplayText::Key(question.i18n_key.clone())
    }
}

/// Appends the missing slots and custom questions among one section's questions.
fn append_missing(
    questions: &Vec<PromptQuestion>,
    log: Option<&CaptainsLog>,
    keys: &mut Vec<AnswerKey>,
    custom: &mut Vec<DisplayText>,
)
    ensures
        final(keys)@ == old(keys)@ + missing_in_questions(questions@, log_of(log)).0,
        text_views(final(custom)@) == text_views(old(custom)@) + missing_in_questions(questions@, log_of(log)).1,
{
    let ghost keys0 = keys@;
    let ghost custom0 = text_views(custom@);
    let mut i: usize = 0;
    while i < questions.len()
        invariant
            i <= questions.len(),
            keys@ == keys0 + missing_in_questions(questions@.take(i as int), log_of(log)).0,
            text_views(custom@) == custom0 + missing_in_questions(questions@.take(i as int), log_of(log)).1,
        decreases questions.len() - i,
    {
        let question = &questions[i];
        assert(questions@.take(i + 1).drop_last() =~= questions@.take(i as int));
        assert(questions@.take(i + 1).last() == questions@[i as int]);
        let key = AnswerKey::from_key(question.id.as_str());
        if question.required && !is_answered(log, question.id.as_str(), key) {
            match key {
                Some(key) => {
                    keys.push(key);
                    assert(keys@ =~= keys0 + missing_in_questions(questions@.take(i + 1), log_of(log)).0);
                },
                None => {
                    let label = missing_label(question);
                    let ghost before = custom@;
                    custom.push(label);
                    assert(text_views(custom@) =~= text_views(before).push(label@));
                    assert(text_views(custom@) =~= custom0 + missing_in_questions(questions@.take(i + 1), log_of(log)).1);
                },
            }
        }
        i = i + 1;
    }
    assert(questions@.take(questions.len() as int) =~= questions@);
}

/// The required free-section questions left blank: catalog slots by key, custom questions by
/// their label.
pub fn missing_required_prompts(config: &PromptConfig, log: Option<&CaptainsLog>) -> (r: (
    Vec<AnswerKey>,
    Vec<DisplayText>,
))
    ensures
        r.0@ == missing_in_sections(config.sections@, log_of(log)).0,
        text_views(r.1@) == missing_in_sections(config.sections@, log_of(log)).1,
{
    let mut keys: Vec<AnswerKey> = Vec::new();
    let mut custom: Vec<DisplayText> = Vec::new();
    let mut i: usize = 0;
    while i < config.sections.len()
        invariant
            i <= config.sections.len(),
            keys@ == missing_in_sections(config.sections@.take(i as int), log_of(log)).0,
            text_views(custom@) == missing_in_sections(config.sections@.take(i as int), log_of(log)).1,
        decreases config.sections.len() - i,
    {
        assert(config.sections@.take(i + 1).drop_last() =~= config.sections@.take(i as int));
        assert(config.sections@.take(i + 1).last() == config.sections@[i as int]);
        match config.sections[i].kind {
            PromptSectionKind::Free => {
                append_missing(&config.sections[i].questions, log, &mut keys, &mut custom);
            },
            PromptSectionKind::Conditional => {},
        }
        i = i + 1;
    }
    assert(config.sections@.take(config.sections.len() as int) =~= config.sections@);
    (keys, custom)
}

/// The day's losses that still want a debrief; none when the combat trigger is off.
pub fn missing_loss_debriefs(
    config: &PromptConfig,
    activity: &DayActivity,
    reports: &[KillmailReport],
) -> (r: Vec<LossEngagement>)
    ensures
        r@ == (if spec_combat_enabled(*config) {
            unreported(activity.losses@, reports@)
        } else {
            seq![]
        }),
{
    if !combat_enabled(config) {
        return Vec::new();
    }
    let mut out: Vec<LossEngagement> = Vec::new();
    let mut i: usize = 0;
    while i < activity.losses.len()
        invariant
            i <= activity.losses.len(),
            out@ == unreported(activity.losses@.take(i as int), reports@),
        decreases activity.losses.len() - i,
    {
        assert(activity.losses@.take(i + 1).drop_last() =~= activity.losses@.take(i as int));
        assert(activity.losses@.take(i + 1).last() == activity.losses@[i as int]);
        if !has_report(reports, &activity.losses[i]) {
            out.push(activity.losses[i]);
        }
        i = i + 1;
    }
    assert(activity.losses@.take(activity.losses.len() as int) =~= activity.losses@);
    out
}

/// What the day still lacks: nothing when the pilot marked it complete; otherwise the required
/// free-section questions left blank, and (with the combat trigger on) the losses without a
/// debrief.
pub fn completeness(
    config: &PromptConfig,
    activity: &DayActivity,
    log: Option<&CaptainsLog>,
    reports: &[KillmailReport],
) -> (r: Completeness)
    ensures
        (log matches Some(l) && l.marked_complete) ==> r.spec_is_complete(),
        !(log matches Some(l) && l.marked_complete) ==> {
            &&& r.missing_prompts@ == missing_in_sections(config.sections@, log_of(log)).0
            &&& text_views(r.missing_custom@) == missing_in_sections(config.sections@, log_of(log)).1
            &&& r.missing_debriefs@ == (if spec_combat_enabled(*config) {
                unreported(activity.losses@, reports@)
            } else {
                seq![]
            })
        },
{
    if let Some(l) = log {
        if l.marked_complete {
            return Completeness::none_missing();
        }
    }
    let (missing_prompts, missing_custom) = missing_required_prompts(config, log);
    Completeness {
        missing_custom,
        missing_debriefs: missing_loss_debriefs(config, activity, reports),
        missing_prompts,
    }
}

} // verus!
