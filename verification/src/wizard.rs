//! The day's debrief wizard: one step per prompt, the combat prompt expanded into one step per
//! engagement, and a closing narrative step; the pilot walks it forward, back, or jumps, and
//! the answers typed along the way are kept and reported for storage.

use vstd::prelude::*;
use crate::answer_map::AnswerMap;
use crate::km_report;
use crate::past::DebriefKey;
use crate::log_model::{AnswerKey, CaptainsLog, PromptConfig};
use crate::prompts::{
    applicable, config_views, prompt_views, prompts_for_day, DayActivity, DisplayText,
    DisplayTextView, Prompt, PromptGroup, PromptView, Trigger,
};
use crate::text::{blank, is_blank, non_blank, push_str, string_from_chars, trimmed, trimmed_chars};

verus! {

/// The answer id the narrative is stored under.
pub const NARRATIVE_ID: &'static str = "narrative";

/// One step of the wizard.
#[derive(Clone, Debug)]
pub enum Step {
    Combat { index: usize, rail_label: DisplayText },
    Narrative,
    Prompt(Prompt),
}

pub ghost enum StepView {
    Combat { index: nat, rail_label: DisplayTextView },
    Narrative,
    Prompt(PromptView),
}

impl View for Step {
    type V = StepView;

    open spec fn view(&self) -> StepView {
        match self {
            Step::Combat { index, rail_label } => StepView::Combat {
                index: *index as nat,
                rail_label: rail_label@,
            },
            Step::Narrative => StepView::Narrative,
            Step::Prompt(p) => StepView::Prompt(p@),
        }
    }
}

pub open spec fn step_views(steps: Seq<Step>) -> Seq<StepView> {
    steps.map_values(|s: Step| s@)
}

proof fn lemma_step_views_push(s: Seq<Step>, x: Step)
    ensures
        step_views(s.push(x)) == step_views(s).push(x@),
{
    assert(step_views(s.push(x)) =~= step_views(s).push(x@));
}

/// A prompt's section name: its literal label, else its i18n key, else nothing.
pub open spec fn spec_section_label(p: PromptView) -> DisplayTextView {
    spec_resolve(p.section_i18n_key, p.section_label)
}

/// A prompt's section name: its literal label, else its i18n key, else nothing.
pub fn section_label(prompt: &Prompt) -> (r: DisplayText)
    ensures
        r@ == spec_section_label(prompt@),
{
    resolve(&prompt.section_i18n_key, &prompt.section_label)
}

/// A literal wins when it is not empty; otherwise the i18n key, or nothing without one.
pub open spec fn spec_resolve(i18n_key: Seq<char>, literal: Seq<char>) -> DisplayTextView {
    if literal.len() > 0 {
        DisplayTextView::Literal(literal)
    } else if i18n_key.len() == 0 {
        DisplayTextView::Literal(seq![])
    } else {
        DisplayTextView::Key(i18n_key)
    }
}

fn resolve(i18n_key: &String, literal: &String) -> (r: DisplayText)
    ensures
        r@ == spec_resolve(i18n_key@, literal@),
{
    if !literal.as_str().is_empty() {
        DisplayText::Literal(literal.clone())
    } else if i18n_key.as_str().is_empty() {
        DisplayText::Literal(String::new())
    } else {
        DisplayText::Key(i18n_key.clone())
    }
}

fn copy_text(text: &DisplayText) -> (r: DisplayText)
    ensures
        r@ == text@,
{
    match text {
        DisplayText::Literal(s) => DisplayText::Literal(s.clone()),
        DisplayText::Key(s) => DisplayText::Key(s.clone()),
    }
}

/// The wizard's own key for a catalog question's text, `captains_log.wizard.<id>_<suffix>`.
pub open spec fn wizard_key(key: AnswerKey, suffix: Seq<char>) -> Seq<char> {
    "captains_log.wizard."@ + key.name() + suffix
}

fn wizard_key_text(key: AnswerKey, suffix: &str) -> (r: String)
    ensures
        r@ == wizard_key(key, suffix@),
{
    let mut v: Vec<char> = Vec::new();
    push_str(&mut v, "captains_log.wizard.");
    push_str(&mut v, key.as_key());
    push_str(&mut v, suffix);
    string_from_chars(&v)
}

/// A question's label: the pilot's own wording wins; an unedited catalog question uses the
/// wizard's key for it, and a custom question resolves its configured key.
pub open spec fn spec_question_label(p: PromptView) -> DisplayTextView {
    if p.label.len() > 0 {
        DisplayTextView::Literal(p.label)
    } else {
        match p.key {
            Some(k) => DisplayTextView::Key(wizard_key(k, "_label"@)),
            None => spec_resolve(p.i18n_key, p.label),
        }
    }
}

/// A question's label: the pilot's own wording wins; an unedited catalog question uses the
/// wizard's key for it, and a custom question resolves its configured key.
pub fn question_label(prompt: &Prompt) -> (r: DisplayText)
    ensures
        r@ == spec_question_label(prompt@),
{
    if !prompt.label.as_str().is_empty() {
        return DisplayText::Literal(prompt.label.clone());
    }
    match prompt.key {
        Some(key) => DisplayText::Key(wizard_key_text(key, "_label")),
        None => resolve(&prompt.i18n_key, &prompt.label),
    }
}

/// A question's placeholder: the pilot's own wording wins; an unedited catalog question uses
/// the wizard's key for it, and a custom question has none.
pub open spec fn spec_question_placeholder(p: PromptView) -> DisplayTextView {
    if p.placeholder.len() > 0 {
        DisplayTextView::Literal(p.placeholder)
    } else {
        match p.key {
            Some(k) => DisplayTextView::Key(wizard_key(k, "_placeholder"@)),
            None => DisplayTextView::Literal(p.placeholder),
        }
    }
}

/// A question's placeholder: the pilot's own wording wins; an unedited catalog question uses
/// the wizard's key for it, and a custom question has none.
pub fn question_placeholder(prompt: &Prompt) -> (r: DisplayText)
    ensures
        r@ == spec_question_placeholder(prompt@),
{
    if !prompt.placeholder.as_str().is_empty() {
        return DisplayText::Literal(prompt.placeholder.clone());
    }
    match prompt.key {
        Some(key) => DisplayText::Key(wizard_key_text(key, "_placeholder")),
        None => DisplayText::Literal(prompt.placeholder.clone()),
    }
}

/// The key that names a delivery's run count: singular for exactly one run.
pub fn runs_label_key(runs: i64) -> (r: &'static str)
    ensures
        runs == 1 ==> r@ == "captains_log.wizard.evidence_runs_one"@,
        runs != 1 ==> r@ == "captains_log.wizard.evidence_runs_other"@,
{
    if runs == 1 {
        "captains_log.wizard.evidence_runs_one"
    } else {
        "captains_log.wizard.evidence_runs_other"
    }
}

/// One combat step per engagement, in engagement order.
pub open spec fn combat_steps(label: DisplayTextView, count: nat) -> Seq<StepView> {
    Seq::new(count, |i: int| StepView::Combat { index: i as nat, rail_label: label })
}

/// The steps of a prompt list: the combat prompt becomes one step per engagement, every other
/// prompt one step.
pub open spec fn expand(ps: Seq<PromptView>, engagements: nat) -> Seq<StepView>
    decreases ps.len(),
{
    if ps.len() == 0 {
        seq![]
    } else {
        expand(ps.drop_last(), engagements) + (if ps.last().key == Some(AnswerKey::Combat) {
            combat_steps(spec_section_label(ps.last()), engagements)
        } else {
            seq![StepView::Prompt(ps.last())]
        })
    }
}

/// The wizard's steps for a day: its prompts, expanded, then the narrative.
pub open spec fn spec_build_steps(
    config: PromptConfig,
    activity: DayActivity,
    engagements: nat,
) -> Seq<StepView> {
    expand(applicable(config_views(config.sections@), activity), engagements).push(
        StepView::Narrative,
    )
}

proof fn lemma_expand_has_no_narrative(ps: Seq<PromptView>, engagements: nat)
    ensures
        forall|i: int| 0 <= i < expand(ps, engagements).len() ==> !(#[trigger] expand(ps, engagements)[i] is Narrative),
    decreases ps.len(),
{
    if ps.len() > 0 {
        lemma_expand_has_no_narrative(ps.drop_last(), engagements);
        let rest = expand(ps.drop_last(), engagements);
        let tail = if ps.last().key == Some(AnswerKey::Combat) {
            combat_steps(spec_section_label(ps.last()), engagements)
        } else {
            seq![StepView::Prompt(ps.last())]
        };
        assert forall|i: int| 0 <= i < expand(ps, engagements).len() implies !(#[trigger] expand(ps, engagements)[i] is Narrative) by {
            assert(expand(ps, engagements) == rest + tail);
            if i < rest.len() {
                assert(expand(ps, engagements)[i] == rest[i]);
            } else {
                assert(expand(ps, engagements)[i] == tail[i - rest.len()]);
            }
        }
    }
}

/// The wizard always ends on the narrative step, and no other step is the narrative.
pub proof fn lemma_narrative_closes_the_steps(config: PromptConfig, activity: DayActivity, engagements: nat)
    ensures
        spec_build_steps(config, activity, engagements).len() > 0,
        spec_build_steps(config, activity, engagements).last() is Narrative,
        forall|i: int| 0 <= i < spec_build_steps(config, activity, engagements).len() - 1
            ==> !(#[trigger] spec_build_steps(config, activity, engagements)[i] is Narrative),
{
    let ps = applicable(config_views(config.sections@), activity);
    lemma_expand_has_no_narrative(ps, engagements);
    let steps = spec_build_steps(config, activity, engagements);
    assert forall|i: int| 0 <= i < steps.len() - 1 implies !(#[trigger] steps[i] is Narrative) by {
        assert(steps[i] == expand(ps, engagements)[i]);
    }
}

/// How many prompts of `ps` are the combat slot.
pub open spec fn combat_count(ps: Seq<PromptView>) -> nat
    decreases ps.len(),
{
    if ps.len() == 0 {
        0
    } else {
        combat_count(ps.drop_last()) + (if ps.last().key == Some(AnswerKey::Combat) { 1nat } else { 0nat })
    }
}

proof fn lemma_expand_len(ps: Seq<PromptView>, engagements: nat)
    ensures
        combat_count(ps) <= ps.len(),
        expand(ps, engagements).len() == ps.len() - combat_count(ps) + combat_count(ps) * engagements,
    decreases ps.len(),
{
    if ps.len() > 0 {
        lemma_expand_len(ps.drop_last(), engagements);
        let c = combat_count(ps.drop_last());
        let rest = expand(ps.drop_last(), engagements);
        if ps.last().key == Some(AnswerKey::Combat) {
            let tail = combat_steps(spec_section_label(ps.last()), engagements);
            assert(expand(ps, engagements) == rest + tail);
            assert(tail.len() == engagements);
            assert(combat_count(ps) == c + 1);
            assert((c + 1) * engagements == c * engagements + engagements) by (nonlinear_arith);
            assert(rest.len() == ps.drop_last().len() - c + c * engagements);
            assert(expand(ps, engagements).len() == rest.len() + engagements);
        } else {
            assert(expand(ps, engagements) == rest + seq![StepView::Prompt(ps.last())]);
            assert(combat_count(ps) == c);
            assert(expand(ps, engagements).len() == rest.len() + 1);
        }
    } else {
        assert(expand(ps, engagements).len() == 0);
        assert(combat_count(ps) == 0);
    }
}

/// The wizard has one step per prompt of the day, the combat prompt counting once per
/// engagement, and the narrative step: with `n` prompts of which `c` are the combat slot and
/// `e` engagements, `n + 1 + c * (e - 1)` steps.
pub proof fn lemma_step_count(config: PromptConfig, activity: DayActivity, engagements: nat)
    ensures
        spec_build_steps(config, activity, engagements).len() == applicable(config_views(config.sections@), activity).len() + 1
            + combat_count(applicable(config_views(config.sections@), activity)) * (engagements - 1),
{
    let ps = applicable(config_views(config.sections@), activity);
    lemma_expand_len(ps, engagements);
    let c = combat_count(ps);
    assert(c * (engagements - 1) == c * engagements - c) by (nonlinear_arith);
}

/// The wizard's steps for a day: each prompt in order, the combat prompt expanded in its slot
/// into one step per engagement, and the narrative step last.
pub fn build_steps(config: &PromptConfig, activity: &DayActivity, engagement_count: usize) -> (r: Vec<Step>)
    ensures
        step_views(r@) == spec_build_steps(*config, *activity, engagement_count as nat),
{
    let prompts = prompts_for_day(config, activity);
    let ghost pv = prompt_views(prompts@);
    let mut steps: Vec<Step> = Vec::new();
    let mut i: usize = 0;
    while i < prompts.len()
        invariant
            i <= prompts.len(),
            pv == prompt_views(prompts@),
            step_views(steps@) == expand(pv.take(i as int), engagement_count as nat),
        decreases prompts.len() - i,
    {
        assert(pv.take(i + 1).drop_last() =~= pv.take(i as int));
        assert(pv.take(i + 1).last() == prompts@[i as int]@);
        let ghost before = step_views(steps@);
        let is_combat = match prompts[i].key {
            Some(AnswerKey::Combat) => true,
            _ => false,
        };
        if is_combat {
            let rail_label = section_label(&prompts[i]);
            let mut k: usize = 0;
            while k < engagement_count
                invariant
                    k <= engagement_count,
                    step_views(steps@) == before + combat_steps(rail_label@, k as nat),
                decreases engagement_count - k,
            {
                let label = copy_text(&rail_label);
                let ghost prev = steps@;
                steps.push(Step::Combat { index: k, rail_label: label });
                proof {
                    lemma_step_views_push(prev, Step::Combat { index: k, rail_label: label });
                    assert(combat_steps(rail_label@, (k + 1) as nat) =~= combat_steps(rail_label@, k as nat).push(
                        StepView::Combat { index: k as nat, rail_label: rail_label@ },
                    ));
                    assert(step_views(steps@) =~= before + combat_steps(rail_label@, (k + 1) as nat));
                }
                k = k + 1;
            }
            assert(step_views(steps@) =~= expand(pv.take(i + 1), engagement_count as nat));
        } else {
            let ghost prev = steps@;
            let step = Step::Prompt(prompts[i].clone_prompt());
            steps.push(step);
            assert(step_views(steps@) =~= step_views(prev).push(step@));
            assert(step_views(steps@) =~= expand(pv.take(i + 1), engagement_count as nat));
        }
        i = i + 1;
    }
    assert(pv.take(prompts.len() as int) =~= pv);
    let ghost prev = steps@;
    steps.push(Step::Narrative);
    assert(step_views(steps@) =~= step_views(prev).push(StepView::Narrative));
    steps
}

/// What the caller should store after the pilot pressed Next.
#[derive(Clone, Debug)]
pub enum Persist {
    /// The answer to a question, `None` to clear it.
    Answer { id: String, value: Option<String> },
    /// The day's narrative, `None` to clear it.
    Narrative(Option<String>),
    /// Engagement `index`'s debrief.
    Report { index: usize, input: km_report::ReportInput },
    Nothing,
}

/// The wizard's state for one day.
#[derive(Debug)]
pub struct State {
    answers: AnswerMap,
    draft: String,
    engagements: Vec<DebriefKey>,
    finished: bool,
    report_saved: Vec<bool>,
    reports: Vec<km_report::State>,
    skipped: Vec<String>,
    step: usize,
    steps: Vec<Step>,
}

/// The draft a step opens with: the stored answer of a question or of the narrative, empty for
/// a combat step.
pub open spec fn spec_draft(steps: Seq<StepView>, index: int, answers: Map<Seq<char>, Seq<char>>) -> Seq<char> {
    if 0 <= index < steps.len() {
        match steps[index] {
            StepView::Prompt(p) => if answers.contains_key(p.id) {
                answers[p.id]
            } else {
                seq![]
            },
            StepView::Narrative => if answers.contains_key(NARRATIVE_ID@) {
                answers[NARRATIVE_ID@]
            } else {
                seq![]
            },
            StepView::Combat { .. } => seq![],
        }
    } else {
        seq![]
    }
}

/// An answer counts when it holds more than whitespace.
pub open spec fn spec_answered(answers: Map<Seq<char>, Seq<char>>, id: Seq<char>) -> bool {
    answers.contains_key(id) && !blank(answers[id])
}

/// The steps, the engagements, the debriefs and their saved state are the same in both wizards.
pub open spec fn same_setup(a: State, b: State) -> bool {
    &&& b.spec_steps() == a.spec_steps()
    &&& b.spec_engagements() == a.spec_engagements()
    &&& b.spec_report_saved() == a.spec_report_saved()
    &&& b.spec_reports() == a.spec_reports()
}

/// The wizard moved on from `a`'s step: to the next step with its answer in the editor, or,
/// from the last step, on to the review with the editor left as it was.
pub open spec fn moved_on(a: State, b: State) -> bool {
    &&& a.spec_step() + 1 >= a.spec_steps().len() ==> b.spec_finished() && b.spec_step() == a.spec_step()
        && b.spec_draft_text() == a.spec_draft_text()
    &&& a.spec_step() + 1 < a.spec_steps().len() ==> b.spec_step() == a.spec_step() + 1
        && b.spec_finished() == a.spec_finished()
        && b.spec_draft_text() == spec_draft(b.spec_steps(), b.spec_step() as int, b.spec_answers())
}

/// One step back (staying on the first), with that step's answer in the editor.
pub open spec fn moved_back(a: State, b: State) -> bool {
    &&& same_setup(a, b)
    &&& b.spec_answers() == a.spec_answers()
    &&& b.spec_skipped() == a.spec_skipped()
    &&& b.spec_finished() == a.spec_finished()
    &&& b.spec_step() == (if a.spec_step() == 0 { 0 } else { a.spec_step() - 1 })
    &&& b.spec_draft_text() == spec_draft(b.spec_steps(), b.spec_step() as int, b.spec_answers())
}

/// The step at `index` opened for editing with its answer in the editor, out of the review; an
/// index past the end changes nothing.
pub open spec fn jumped(a: State, index: usize, b: State) -> bool {
    &&& index < a.spec_steps().len() ==> {
        &&& same_setup(a, b)
        &&& b.spec_answers() == a.spec_answers()
        &&& b.spec_skipped() == a.spec_skipped()
        &&& b.spec_step() == index
        &&& !b.spec_finished()
        &&& b.spec_draft_text() == spec_draft(b.spec_steps(), index as int, b.spec_answers())
    }
    &&& index >= a.spec_steps().len() ==> b == a
}

/// Back from the review to the current step, with its answer in the editor.
pub open spec fn composing(a: State, b: State) -> bool {
    &&& same_setup(a, b)
    &&& b.spec_answers() == a.spec_answers()
    &&& b.spec_skipped() == a.spec_skipped()
    &&& b.spec_step() == a.spec_step()
    &&& !b.spec_finished()
    &&& b.spec_draft_text() == spec_draft(b.spec_steps(), b.spec_step() as int, b.spec_answers())
}

/// The editor's text replaced by `text`; nothing else changed.
pub open spec fn drafted(a: State, text: Seq<char>, b: State) -> bool {
    &&& same_setup(a, b)
    &&& b.spec_answers() == a.spec_answers()
    &&& b.spec_skipped() == a.spec_skipped()
    &&& b.spec_step() == a.spec_step()
    &&& b.spec_finished() == a.spec_finished()
    &&& b.spec_draft_text() == text
}

/// The current question marked skipped (a combat or narrative step marks nothing), and the
/// wizard moved on.
pub open spec fn skipped_step(a: State, b: State) -> bool {
    &&& same_setup(a, b)
    &&& b.spec_answers() == a.spec_answers()
    &&& b.spec_skipped() == (match a.spec_steps()[a.spec_step() as int] {
        StepView::Prompt(p) => a.spec_skipped().insert(p.id),
        _ => a.spec_skipped(),
    })
    &&& moved_on(a, b)
}

/// Whether a debrief is known to be saved for engagement `e`.
pub open spec fn debrief_saved(saved: Seq<bool>, e: int) -> bool {
    0 <= e < saved.len() && saved[e]
}

/// Whether step `index` is done: a combat step once its debrief is saved, the narrative and
/// questions once answered; no step past the end is.
pub open spec fn step_is_done(s: State, index: int) -> bool {
    if 0 <= index < s.spec_steps().len() {
        match s.spec_steps()[index] {
            StepView::Combat { index: e, .. } => debrief_saved(s.spec_report_saved(), e as int),
            StepView::Narrative => spec_answered(s.spec_answers(), NARRATIVE_ID@),
            StepView::Prompt(p) => spec_answered(s.spec_answers(), p.id),
        }
    } else {
        false
    }
}

/// The saved flags after a debrief message for engagement `index`.
pub open spec fn noted_flags(saved: Seq<bool>, index: usize, message: km_report::Message) -> Seq<bool> {
    if index < saved.len() {
        match message {
            km_report::Message::Loaded(report) => saved.update(index as int, report is Some),
            km_report::Message::Saved => saved.update(index as int, true),
            _ => saved,
        }
    } else {
        saved
    }
}

/// A debrief message for engagement `index` noted in the saved flags; nothing else changed.
pub open spec fn noted(a: State, index: usize, message: km_report::Message, b: State) -> bool {
    &&& b.spec_report_saved() == noted_flags(a.spec_report_saved(), index, message)
    &&& b.spec_steps() == a.spec_steps()
    &&& b.spec_engagements() == a.spec_engagements()
    &&& b.spec_reports() == a.spec_reports()
    &&& b.spec_answers() == a.spec_answers()
    &&& b.spec_skipped() == a.spec_skipped()
    &&& b.spec_step() == a.spec_step()
    &&& b.spec_finished() == a.spec_finished()
    &&& b.spec_draft_text() == a.spec_draft_text()
}

/// The pilot pressed Next on `a`: the trimmed editor text became the answer of the current
/// question or of the narrative (a blank one clears it), `r` says what to store, and the wizard
/// moved on; a combat step only moves on.
pub open spec fn next_taken(a: State, b: State, r: Persist) -> bool {
    &&& same_setup(a, b)
    &&& b.spec_skipped() == a.spec_skipped()
    &&& moved_on(a, b)
    &&& match a.spec_steps()[a.spec_step() as int] {
        StepView::Prompt(p) => {
            let value = trimmed(a.spec_draft_text());
            &&& r matches Persist::Answer { id, value: stored } && id@ == p.id && (if value.len() == 0 {
                stored is None
            } else {
                stored matches Some(v) && v@ == value
            })
            &&& b.spec_answers() == (if value.len() == 0 {
                a.spec_answers().remove(p.id)
            } else {
                a.spec_answers().insert(p.id, value)
            })
        },
        StepView::Narrative => {
            let value = trimmed(a.spec_draft_text());
            &&& r matches Persist::Narrative(stored) && (if value.len() == 0 {
                stored is None
            } else {
                stored matches Some(v) && v@ == value
            })
            &&& b.spec_answers() == (if value.len() == 0 {
                a.spec_answers().remove(NARRATIVE_ID@)
            } else {
                a.spec_answers().insert(NARRATIVE_ID@, value)
            })
        },
        StepView::Combat { .. } => r is Nothing && b.spec_answers() == a.spec_answers(),
    }
}

/// A debrief message for engagement `index`: noted in the saved flags, then handed to that
/// engagement's debrief panel, whose save (if any) `r` asks to store; an index past the end only
/// notes.
pub open spec fn report_routed(a: State, index: usize, message: km_report::Message, b: State, r: Persist) -> bool {
    &&& b.spec_report_saved() == noted_flags(a.spec_report_saved(), index, message)
    &&& b.spec_steps() == a.spec_steps()
    &&& b.spec_engagements() == a.spec_engagements()
    &&& b.spec_answers() == a.spec_answers()
    &&& b.spec_skipped() == a.spec_skipped()
    &&& b.spec_step() == a.spec_step()
    &&& b.spec_finished() == a.spec_finished()
    &&& b.spec_draft_text() == a.spec_draft_text()
    &&& if index < a.spec_reports().len() {
        &&& b.spec_reports() == a.spec_reports().update(index as int, b.spec_reports()[index as int])
        &&& match r {
            Persist::Report { index: i, input } => i == index
                && km_report::stepped(a.spec_reports()[index as int], message, b.spec_reports()[index as int], Some(input)),
            Persist::Nothing => km_report::stepped(a.spec_reports()[index as int], message, b.spec_reports()[index as int], None),
            _ => false,
        }
    } else {
        r is Nothing && b.spec_reports() == a.spec_reports()
    }
}

impl State {
    /// The steps never change, and the current step is one of them.
    pub closed spec fn wf(self) -> bool {
        &&& self.spec_steps().len() > 0
        &&& self.spec_step() < self.spec_steps().len()
    }

    pub closed spec fn spec_steps(self) -> Seq<StepView> {
        step_views(self.steps@)
    }

    pub closed spec fn spec_step(self) -> nat {
        self.step as nat
    }

    pub closed spec fn spec_finished(self) -> bool {
        self.finished
    }

    pub closed spec fn spec_answers(self) -> Map<Seq<char>, Seq<char>> {
        self.answers@
    }

    pub closed spec fn spec_draft_text(self) -> Seq<char> {
        self.draft@
    }

    pub closed spec fn spec_report_saved(self) -> Seq<bool> {
        self.report_saved@
    }

    pub closed spec fn spec_engagements(self) -> Seq<DebriefKey> {
        self.engagements@
    }

    pub closed spec fn spec_reports(self) -> Seq<km_report::State> {
        self.reports@
    }

    pub closed spec fn spec_skipped(self) -> Set<Seq<char>> {
        Set::new(|n: Seq<char>| exists|j: int| 0 <= j < self.skipped@.len() && (#[trigger] self.skipped@[j])@ == n)
    }

    /// Whether the wizard has moved on to the review.
    pub fn is_finished(&self) -> (r: bool)
        ensures
            r == self.spec_finished(),
    {
        self.finished
    }

    /// The current step's position.
    pub fn step(&self) -> (r: usize)
        ensures
            r == self.spec_step(),
    {
        self.step
    }

    /// The number of steps.
    pub fn step_count(&self) -> (r: usize)
        ensures
            r == self.spec_steps().len(),
    {
        self.steps.len()
    }

    /// The text in the editor.
    pub fn draft(&self) -> (r: &String)
        ensures
            r@ == self.spec_draft_text(),
    {
        &self.draft
    }

    /// The answer stored under `id`.
    pub fn answer(&self, id: &str) -> (r: Option<&String>)
        ensures
            r matches Some(v) ==> self.spec_answers().contains_key(id@) && self.spec_answers()[id@] == v@,
            r is None ==> !self.spec_answers().contains_key(id@),
    {
        self.answers.get(id)
    }

    /// Whether engagement `index`'s debrief is known to be saved.
    pub fn report_saved(&self, index: usize) -> (r: bool)
        ensures
            r == (index < self.spec_report_saved().len() && self.spec_report_saved()[index as int]),
    {
        index < self.report_saved.len() && self.report_saved[index]
    }

    /// The step at `index`.
    pub fn step_at(&self, index: usize) -> (r: Option<&Step>)
        ensures
            index < self.spec_steps().len() ==> (r matches Some(s) && s@ == self.spec_steps()[index as int]),
            index >= self.spec_steps().len() ==> r is None,
    {
        if index < self.steps.len() {
            Some(&self.steps[index])
        } else {
            None
        }
    }

    fn draft_for(&self, index: usize) -> (r: String)
        ensures
            r@ == spec_draft(self.spec_steps(), index as int, self.spec_answers()),
    {
        if index >= self.steps.len() {
            return String::new();
        }
        match &self.steps[index] {
            Step::Prompt(prompt) => match self.answers.get(prompt.id.as_str()) {
                Some(text) => text.clone(),
                None => String::new(),
            },
            Step::Narrative => match self.answers.get(NARRATIVE_ID) {
                Some(text) => text.clone(),
                None => String::new(),
            },
            Step::Combat { .. } => String::new(),
        }
    }

    fn reseed_draft(&mut self)
        ensures
            final(self).answers == old(self).answers,
            final(self).steps == old(self).steps,
            final(self).step == old(self).step,
            final(self).finished == old(self).finished,
            final(self).report_saved == old(self).report_saved,
            final(self).reports == old(self).reports,
            final(self).engagements == old(self).engagements,
            final(self).skipped == old(self).skipped,
            final(self).spec_draft_text() == spec_draft(old(self).spec_steps(), old(self).step as int, old(self).spec_answers()),
    {
        self.draft = self.draft_for(self.step);
    }

    /// A fresh wizard for the day, seeded with the day's stored answers, at the first step with
    /// its answer in the editor.
    pub fn new(
        config: &PromptConfig,
        activity: &DayActivity,
        engagements: &Vec<DebriefKey>,
        log: Option<&CaptainsLog>,
        finished: bool,
    ) -> (r: State)
        ensures
            r.wf(),
            r.spec_steps() == spec_build_steps(*config, *activity, engagements@.len()),
            r.spec_step() == 0,
            r.spec_finished() == finished,
            r.spec_answers() == seeded_answers(match log {
                Some(l) => Some(*l),
                None => None,
            }),
            r.spec_engagements() == engagements@,
            r.spec_report_saved() == Seq::new(engagements@.len(), |i: int| false),
            r.spec_reports().len() == engagements@.len(),
            forall|i: int| 0 <= i < engagements@.len() ==> {
                let d = #[trigger] r.spec_reports()[i];
                &&& d.spec_character_id() == engagements@[i].character_id
                &&& d.spec_killmail_id() == engagements@[i].killmail_id
                &&& d.spec_editing()
                &&& d.spec_saved() is None
                &&& d.spec_outcome() == (if engagements@[i].is_kill { km_report::Outcome::Clean } else { km_report::Outcome::Costly })
            },
            r.spec_skipped().is_empty(),
            r.spec_draft_text() == spec_draft(r.spec_steps(), 0, r.spec_answers()),
    {
        let steps = build_steps(config, activity, engagements.len());
        let answers = load_answers(log);
        let mut report_saved: Vec<bool> = Vec::new();
        let mut reports: Vec<km_report::State> = Vec::new();
        let mut kept: Vec<DebriefKey> = Vec::new();
        let mut k: usize = 0;
        while k < engagements.len()
            invariant
                k <= engagements@.len(),
                report_saved@ == Seq::new(k as nat, |i: int| false),
                reports@.len() == k,
                kept@ == engagements@.subrange(0, k as int),
                forall|i: int| 0 <= i < k ==> {
                    let d = #[trigger] reports@[i];
                    &&& d.spec_character_id() == engagements@[i].character_id
                    &&& d.spec_killmail_id() == engagements@[i].killmail_id
                    &&& d.spec_editing()
                    &&& d.spec_saved() is None
                    &&& d.spec_outcome() == (if engagements@[i].is_kill { km_report::Outcome::Clean } else { km_report::Outcome::Costly })
                },
            decreases engagements.len() - k,
        {
            let e = engagements[k];
            reports.push(km_report::State::new(e.character_id, e.killmail_id, e.is_kill));
            report_saved.push(false);
            kept.push(e);
            k = k + 1;
            assert(report_saved@ =~= Seq::new(k as nat, |i: int| false));
        }
        let mut state = State {
            answers,
            draft: String::new(),
            engagements: kept,
            finished,
            report_saved,
            reports,
            skipped: Vec::new(),
            step: 0,
            steps,
        };
        state.reseed_draft();
        assert(state.spec_skipped() =~= Set::<Seq<char>>::empty());
        state
    }

    /// Position of the narrative step (the last step when there were none).
    pub fn narrative_step_index(&self) -> (r: usize)
        requires
            self.wf(),
        ensures
            r < self.spec_steps().len(),
            self.spec_steps()[r as int] is Narrative || (forall|i: int| 0 <= i < self.spec_steps().len() ==> !(self.spec_steps()[i] is Narrative)) && r == self.spec_steps().len() - 1,
            forall|i: int| 0 <= i < r ==> !(#[trigger] self.spec_steps()[i] is Narrative),
    {
        let mut i: usize = 0;
        while i < self.steps.len()
            invariant
                i <= self.steps.len(),
                forall|j: int| 0 <= j < i ==> !(#[trigger] self.spec_steps()[j] is Narrative),
            decreases self.steps.len() - i,
        {
            match &self.steps[i] {
                Step::Narrative => return i,
                _ => {},
            }
            i = i + 1;
        }
        self.steps.len() - 1
    }

    /// Whether the current step is the last one.
    pub fn is_last(&self) -> (r: bool)
        ensures
            r == (self.spec_step() + 1 >= self.spec_steps().len()),
    {
        self.step >= self.steps.len() || self.steps.len() - self.step <= 1
    }

    /// Whether an answer holding more than whitespace is stored under `id`.
    pub fn is_answered(&self, id: &str) -> (r: bool)
        ensures
            r == spec_answered(self.spec_answers(), id@),
    {
        match self.answers.get(id) {
            Some(value) => !is_blank(value.as_str()),
            None => false,
        }
    }

    /// Stores an answer, or drops it when the text is blank.
    pub fn set_answer(&mut self, id: &str, value: String)
        ensures
            blank(value@) ==> final(self).spec_answers() == old(self).spec_answers().remove(id@),
            !blank(value@) ==> final(self).spec_answers() == old(self).spec_answers().insert(id@, value@),
            final(self).spec_steps() == old(self).spec_steps(),
            final(self).spec_step() == old(self).spec_step(),
            final(self).spec_finished() == old(self).spec_finished(),
            final(self).spec_draft_text() == old(self).spec_draft_text(),
            final(self).spec_report_saved() == old(self).spec_report_saved(),
            final(self).spec_reports() == old(self).spec_reports(),
            final(self).spec_engagements() == old(self).spec_engagements(),
            final(self).spec_skipped() == old(self).spec_skipped(),
    {
        if is_blank(value.as_str()) {
            self.answers.remove(id);
        } else {
            self.answers.insert(id.to_owned(), value);
        }
    }

    /// Moves to the next step, or, from the last step, on to the review.
    pub fn advance(&mut self)
        requires
            old(self).wf(),
        ensures
            final(self).wf(),
            same_setup(*old(self), *final(self)),
            final(self).spec_answers() == old(self).spec_answers(),
            final(self).spec_skipped() == old(self).spec_skipped(),
            moved_on(*old(self), *final(self)),
    {
        if self.is_last() {
            self.finished = true;
        } else {
            let count = self.steps.len();
            assert(self.step + 1 < count);
            self.step = self.step + 1;
            self.reseed_draft();
        }
    }

    /// Moves one step back, staying on the first step.
    pub fn back(&mut self)
        requires
            old(self).wf(),
        ensures
            final(self).wf(),
            moved_back(*old(self), *final(self)),
    {
        if self.step > 0 {
            self.step = self.step - 1;
        }
        self.reseed_draft();
    }

    /// Opens the step at `index` for editing; an index past the end changes nothing.
    pub fn jump_to(&mut self, index: usize)
        requires
            old(self).wf(),
        ensures
            final(self).wf(),
            jumped(*old(self), index, *final(self)),
    {
        if index < self.steps.len() {
            self.finished = false;
            self.step = index;
            self.reseed_draft();
        }
    }

    /// Leaves the review to keep editing the current step.
    pub fn set_composing(&mut self)
        requires
            old(self).wf(),
        ensures
            final(self).wf(),
            composing(*old(self), *final(self)),
    {
        self.finished = false;
        self.reseed_draft();
    }

    /// Replaces the editor's text.
    pub fn edit_draft(&mut self, text: String)
        ensures
            drafted(*old(self), text@, *final(self)),
    {
        self.draft = text;
    }

    /// Marks the current question skipped, when it is a question, and moves on.
    pub fn skip(&mut self)
        requires
            old(self).wf(),
        ensures
            final(self).wf(),
            skipped_step(*old(self), *final(self)),
    {
        let id = match &self.steps[self.step] {
            Step::Prompt(prompt) => Some(prompt.id.clone()),
            _ => None,
        };
        if let Some(id) = id {
            let ghost before = *self;
            let ghost name = id@;
            self.skipped.push(id);
            assert forall|n: Seq<char>| self.spec_skipped().contains(n) <==> before.spec_skipped().insert(name).contains(n) by {
                if before.spec_skipped().contains(n) && n != name {
                    let j = choose|j: int| 0 <= j < before.skipped@.len() && (#[trigger] before.skipped@[j])@ == n;
                    assert(self.skipped@[j] == before.skipped@[j]);
                }
                if n == name {
                    assert(self.skipped@[before.skipped@.len() as int]@ == n);
                }
                if self.spec_skipped().contains(n) {
                    let j = choose|j: int| 0 <= j < self.skipped@.len() && (#[trigger] self.skipped@[j])@ == n;
                    if j < before.skipped@.len() {
                        assert(before.skipped@[j] == self.skipped@[j]);
                    }
                }
            }
            assert(self.spec_skipped() =~= before.spec_skipped().insert(name));
        }
        self.advance();
    }

    /// Whether the question `id` was skipped.
    pub fn was_skipped(&self, id: &str) -> (r: bool)
        ensures
            r == self.spec_skipped().contains(id@),
    {
        let mut i: usize = 0;
        while i < self.skipped.len()
            invariant
                i <= self.skipped.len(),
                forall|j: int| 0 <= j < i ==> self.skipped@[j]@ != id@,
            decreases self.skipped.len() - i,
        {
            if crate::scopes::str_eq(self.skipped[i].as_str(), id) {
                assert(self.skipped@[i as int]@ == id@);
                return true;
            }
            i = i + 1;
        }
        proof {
            if self.spec_skipped().contains(id@) {
                let j = choose|j: int| 0 <= j < self.skipped@.len() && (#[trigger] self.skipped@[j])@ == id@;
            }
        }
        false
    }

    /// Records a debrief's saved state for engagement `index`: a load sets it by whether a
    /// report was found, a save sets it; other messages and out-of-range indices change nothing.
    pub fn note_report_status(&mut self, index: usize, message: &km_report::Message)
        ensures
            noted(*old(self), index, *message, *final(self)),
    {
        if index < self.report_saved.len() {
            match message {
                km_report::Message::Loaded(report) => self.report_saved.set(index, report.is_some()),
                km_report::Message::Saved => self.report_saved.set(index, true),
                _ => {},
            }
        }
    }

    /// Whether step `index` is done: a combat step once its debrief is saved, the narrative and
    /// questions once answered.
    pub fn step_done(&self, index: usize) -> (r: bool)
        ensures
            r == step_is_done(*self, index as int),
    {
        if index >= self.steps.len() {
            return false;
        }
        match &self.steps[index] {
            Step::Combat { index: engagement, .. } => {
                if *engagement < self.report_saved.len() {
                    self.report_saved[*engagement]
                } else {
                    false
                }
            },
            Step::Narrative => self.is_answered(NARRATIVE_ID),
            Step::Prompt(prompt) => self.is_answered(prompt.id.as_str()),
        }
    }

    /// The pilot pressed Next: the trimmed draft becomes the answer of the current question or
    /// of the narrative, the wizard moves on, and the caller is told what to store (a blank
    /// answer is stored as cleared). On a combat step it only moves on.
    pub fn next_requested(&mut self) -> (r: Persist)
        requires
            old(self).wf(),
        ensures
            final(self).wf(),
            next_taken(*old(self), *final(self), r),
    {
        let id = match &self.steps[self.step] {
            Step::Prompt(prompt) => Some(prompt.id.clone()),
            Step::Narrative => Some(NARRATIVE_ID.to_owned()),
            Step::Combat { .. } => None,
        };
        let narrative = match &self.steps[self.step] {
            Step::Narrative => true,
            _ => false,
        };
        match id {
            None => {
                self.advance();
                Persist::Nothing
            },
            Some(id) => {
                let chars = trimmed_chars(self.draft.as_str());
                let value = string_from_chars(&chars);
                proof {
                    crate::text::lemma_trimmed_empty_iff_blank(value@);
                    crate::text::lemma_trimmed_blank_is_empty(self.draft@);
                }
                let stored = if chars.len() == 0 {
                    None
                } else {
                    Some(string_from_chars(&chars))
                };
                self.set_answer(id.as_str(), value);
                self.advance();
                if narrative {
                    Persist::Narrative(stored)
                } else {
                    Persist::Answer { id, value: stored }
                }
            },
        }
    }

    /// The debrief panel of engagement `index`, if there is one.
    pub fn report(&self, index: usize) -> (r: Option<&km_report::State>)
        ensures
            r == (if index < self.spec_reports().len() {
                Some(&self.spec_reports()[index as int])
            } else {
                None
            }),
    {
        if index < self.reports.len() {
            Some(&self.reports[index])
        } else {
            None
        }
    }

    /// Hands a debrief message to engagement `index`'s panel, after noting it in the saved
    /// flags; returns the save to store, if the panel asked for one.
    pub fn forward_report(&mut self, index: usize, message: km_report::Message) -> (r: Persist)
        requires
            old(self).wf(),
        ensures
            final(self).wf(),
            report_routed(*old(self), index, message, *final(self), r),
    {
        self.note_report_status(index, &message);
        if index < self.reports.len() {
            let ghost noted_reports = self.reports@;
            let mut panel = self.reports.remove(index);
            let saved = km_report::update(&mut panel, message);
            self.reports.insert(index, panel);
            assert(self.reports@ =~= noted_reports.update(index as int, panel));
            match saved {
                Some(input) => Persist::Report { index, input },
                None => Persist::Nothing,
            }
        } else {
            Persist::Nothing
        }
    }
}

/// What the wizard pane reacts to.
#[derive(Clone, Debug)]
pub enum Message {
    Back,
    ContinueEditing,
    /// The editor's whole text after an edit.
    DraftEdited(String),
    JumpTo(usize),
    NextRequested,
    Report(usize, km_report::Message),
    Saved,
    SkipRequested,
    StepSelected(usize),
}

/// How the wizard answers `message`: the state it moves to and what the caller stores.
pub open spec fn pane_stepped(a: State, message: Message, b: State, r: Persist) -> bool {
    match message {
        Message::Saved => r is Nothing && b == a,
        Message::Back => r is Nothing && moved_back(a, b),
        Message::ContinueEditing => r is Nothing && composing(a, b),
        Message::DraftEdited(text) => r is Nothing && drafted(a, text@, b),
        Message::JumpTo(index) => r is Nothing && jumped(a, index, b),
        Message::StepSelected(index) => r is Nothing && jumped(a, index, b),
        Message::NextRequested => next_taken(a, b, r),
        Message::Report(index, report) => report_routed(a, index, report, b, r),
        Message::SkipRequested => r is Nothing && skipped_step(a, b),
    }
}

/// Applies one message to the wizard and says what to store.
pub fn update_pane(state: &mut State, message: Message) -> (r: Persist)
    requires
        old(state).wf(),
    ensures
        final(state).wf(),
        pane_stepped(*old(state), message, *final(state), r),
{
    match message {
        Message::Saved => Persist::Nothing,
        Message::Back => {
            state.back();
            Persist::Nothing
        },
        Message::ContinueEditing => {
            state.set_composing();
            Persist::Nothing
        },
        Message::DraftEdited(text) => {
            state.edit_draft(text);
            Persist::Nothing
        },
        Message::JumpTo(index) => {
            state.jump_to(index);
            Persist::Nothing
        },
        Message::StepSelected(index) => {
            state.jump_to(index);
            Persist::Nothing
        },
        Message::NextRequested => state.next_requested(),
        Message::Report(index, report) => state.forward_report(index, report),
        Message::SkipRequested => {
            state.skip();
            Persist::Nothing
        },
    }
}

/// How a dot of the progress rail is filled.
#[derive(Clone, Copy, Debug, PartialEq, Eq, Structural)]
pub enum DotFill {
    /// The step being edited, in its section's tint.
    Active,
    /// A step that is done.
    Done,
    /// A step still open.
    Open,
}

/// The tint a wizard section is drawn in.
#[derive(Clone, Copy, Debug, PartialEq, Eq, Structural)]
pub enum GroupTint {
    Accent,
    Forward,
    Warning,
}

/// The label of the narrative section.
pub const GROUP_NARRATIVE_KEY: &'static str = "captains_log.wizard.group_narrative";

/// Conditional prompts warn, forward-looking ones have their own tint, the rest take the accent.
pub open spec fn spec_group_tint(group: PromptGroup) -> GroupTint {
    match group {
        PromptGroup::Conditional => GroupTint::Warning,
        PromptGroup::Forward => GroupTint::Forward,
        _ => GroupTint::Accent,
    }
}

/// The tint of a prompt section.
pub fn group_tint(group: PromptGroup) -> (r: GroupTint)
    ensures
        r == spec_group_tint(group),
{
    match group {
        PromptGroup::Conditional => GroupTint::Warning,
        PromptGroup::Forward => GroupTint::Forward,
        _ => GroupTint::Accent,
    }
}

/// The tint and label of the section a step belongs to: a combat step warns under its rail
/// label, the narrative has its own section, a prompt shows its section.
pub open spec fn spec_group_meta(step: StepView) -> (GroupTint, DisplayTextView) {
    match step {
        StepView::Combat { rail_label, .. } => (GroupTint::Warning, rail_label),
        StepView::Narrative => (GroupTint::Accent, DisplayTextView::Key(GROUP_NARRATIVE_KEY@)),
        StepView::Prompt(p) => (spec_group_tint(p.group), spec_section_label(p)),
    }
}

/// The key of the Next button: finishing from a last combat step, saving the entry from the
/// last other step, else moving on.
pub fn next_label_key(combat: bool, last: bool) -> (r: &'static str)
    ensures
        combat && last ==> r@ == "captains_log.wizard.finish"@,
        !combat && last ==> r@ == "captains_log.wizard.save_entry"@,
        !last ==> r@ == "captains_log.wizard.next"@,
{
    if combat && last {
        "captains_log.wizard.finish"
    } else if last {
        "captains_log.wizard.save_entry"
    } else {
        "captains_log.wizard.next"
    }
}

/// The key of the link the review shows for a step without an answer, by whether the step is
/// a debrief and whether it was skipped.
pub fn unanswered_key(debrief: bool, skipped: bool) -> (r: &'static str)
    ensures
        debrief && skipped ==> r@ == "captains_log.wizard.skipped_debrief"@,
        debrief && !skipped ==> r@ == "captains_log.wizard.not_debriefed"@,
        !debrief && skipped ==> r@ == "captains_log.wizard.skipped_add"@,
        !debrief && !skipped ==> r@ == "captains_log.wizard.not_answered"@,
{
    if debrief {
        if skipped {
            "captains_log.wizard.skipped_debrief"
        } else {
            "captains_log.wizard.not_debriefed"
        }
    } else if skipped {
        "captains_log.wizard.skipped_add"
    } else {
        "captains_log.wizard.not_answered"
    }
}

/// The key that names an engagement a kill or a loss.
pub fn kind_label_key(is_kill: bool) -> (r: &'static str)
    ensures
        is_kill ==> r@ == "captains_log.wizard.kill"@,
        !is_kill ==> r@ == "captains_log.wizard.loss"@,
{
    if is_kill {
        "captains_log.wizard.kill"
    } else {
        "captains_log.wizard.loss"
    }
}

/// The key that says why a conditional prompt was asked.
pub fn trigger_reason_key(trigger: Trigger) -> (r: &'static str)
    ensures
        trigger == Trigger::Engagement ==> r@ == "captains_log.wizard.reason_losses"@,
        trigger == Trigger::Industry ==> r@ == "captains_log.wizard.reason_industry"@,
        trigger == Trigger::Skills ==> r@ == "captains_log.wizard.reason_skills"@,
{
    match trigger {
        Trigger::Engagement => "captains_log.wizard.reason_losses",
        Trigger::Industry => "captains_log.wizard.reason_industry",
        Trigger::Skills => "captains_log.wizard.reason_skills",
    }
}

/// The evidence a prompt step shows beside its question.
#[derive(Clone, Copy, Debug, PartialEq, Eq, Structural)]
pub enum Evidence {
    Industry,
    Skills,
}

/// A skills prompt shows the day's trained skills and an industry prompt its deliveries, when
/// there are any; other prompts show none.
pub open spec fn spec_evidence_for(activity: DayActivity, prompt: PromptView) -> Option<Evidence> {
    match prompt.trigger {
        Some(Trigger::Skills) => if activity.skills@.len() > 0 { Some(Evidence::Skills) } else { None },
        Some(Trigger::Industry) => if activity.industry@.len() > 0 { Some(Evidence::Industry) } else { None },
        _ => None,
    }
}

/// The evidence strip a prompt step shows, if any.
pub fn evidence_for(activity: &DayActivity, prompt: &Prompt) -> (r: Option<Evidence>)
    ensures
        r == spec_evidence_for(*activity, prompt@),
{
    match prompt.trigger {
        Some(Trigger::Skills) => if activity.skills.len() > 0 {
            Some(Evidence::Skills)
        } else {
            None
        },
        Some(Trigger::Industry) => if activity.industry.len() > 0 {
            Some(Evidence::Industry)
        } else {
            None
        },
        _ => None,
    }
}

/// A row of the review.
#[derive(Clone, Debug)]
pub enum ReviewRow {
    /// The question at `step`: its answer when it is not blank, and whether it was skipped.
    Prompt { step: usize, answer: Option<String>, skipped: bool },
    /// The debrief of `engagement` at `step`: whether it is saved, and whether it is missing,
    /// an unsaved loss.
    Debrief { step: usize, engagement: usize, saved: bool, missing: bool },
    /// A combat step whose engagement is unknown, shown as nothing.
    Blank { step: usize },
}

pub ghost enum ReviewRowView {
    Prompt { step: nat, answer: Option<Seq<char>>, skipped: bool },
    Debrief { step: nat, engagement: nat, saved: bool, missing: bool },
    Blank { step: nat },
}

impl View for ReviewRow {
    type V = ReviewRowView;

    open spec fn view(&self) -> ReviewRowView {
        match self {
            ReviewRow::Prompt { step, answer, skipped } => ReviewRowView::Prompt {
                step: *step as nat,
                answer: match answer {
                    Some(a) => Some(a@),
                    None => None,
                },
                skipped: *skipped,
            },
            ReviewRow::Debrief { step, engagement, saved, missing } => ReviewRowView::Debrief {
                step: *step as nat,
                engagement: *engagement as nat,
                saved: *saved,
                missing: *missing,
            },
            ReviewRow::Blank { step } => ReviewRowView::Blank { step: *step as nat },
        }
    }
}

pub open spec fn review_views(rows: Seq<ReviewRow>) -> Seq<ReviewRowView> {
    rows.map_values(|r: ReviewRow| r@)
}

/// The review row of step `i`, which is not the narrative.
pub open spec fn spec_review_row(s: State, i: int) -> ReviewRowView {
    match s.spec_steps()[i] {
        StepView::Prompt(p) => ReviewRowView::Prompt {
            step: i as nat,
            answer: if spec_answered(s.spec_answers(), p.id) {
                Some(s.spec_answers()[p.id])
            } else {
                None
            },
            skipped: s.spec_skipped().contains(p.id),
        },
        StepView::Combat { index: e, .. } => spec_review_debrief(s, i as nat, e),
        StepView::Narrative => ReviewRowView::Blank { step: i as nat },
    }
}

/// The review row of engagement `e`'s debrief at `step`: saved or not, missing when an unsaved
/// loss; nothing for an unknown engagement.
pub open spec fn spec_review_debrief(s: State, step: nat, e: nat) -> ReviewRowView {
    if e < s.spec_engagements().len() {
        ReviewRowView::Debrief {
            step,
            engagement: e,
            saved: debrief_saved(s.spec_report_saved(), e as int),
            missing: !s.spec_engagements()[e as int].is_kill && !debrief_saved(s.spec_report_saved(), e as int),
        }
    } else {
        ReviewRowView::Blank { step }
    }
}

/// The review rows of the first `n` steps, in step order, the narrative left out.
pub open spec fn review_rows_upto(s: State, n: int) -> Seq<ReviewRowView>
    decreases n,
{
    if n <= 0 {
        seq![]
    } else if s.spec_steps()[n - 1] is Narrative {
        review_rows_upto(s, n - 1)
    } else {
        review_rows_upto(s, n - 1).push(spec_review_row(s, n - 1))
    }
}

impl State {
    /// How the rail's dot for step `index` is filled.
    pub fn dot_fill(&self, index: usize) -> (r: DotFill)
        ensures
            r == (if index == self.spec_step() {
                DotFill::Active
            } else if step_is_done(*self, index as int) {
                DotFill::Done
            } else {
                DotFill::Open
            }),
    {
        if index == self.step {
            DotFill::Active
        } else if self.step_done(index) {
            DotFill::Done
        } else {
            DotFill::Open
        }
    }

    /// The tint and label of the current step's section.
    pub fn current_group_meta(&self) -> (r: (GroupTint, DisplayText))
        requires
            self.wf(),
        ensures
            r.0 == spec_group_meta(self.spec_steps()[self.spec_step() as int]).0,
            r.1@ == spec_group_meta(self.spec_steps()[self.spec_step() as int]).1,
    {
        match &self.steps[self.step] {
            Step::Combat { rail_label, .. } => (GroupTint::Warning, copy_text(rail_label)),
            Step::Narrative => (GroupTint::Accent, DisplayText::Key(GROUP_NARRATIVE_KEY.to_owned())),
            Step::Prompt(prompt) => (group_tint(prompt.group), section_label(prompt)),
        }
    }

    fn review_row(&self, i: usize) -> (r: ReviewRow)
        requires
            i < self.spec_steps().len(),
        ensures
            r@ == spec_review_row(*self, i as int),
    {
        match &self.steps[i] {
            Step::Prompt(prompt) => {
                let id = prompt.id.as_str();
                let answer = match self.answers.get(id) {
                    Some(value) => if is_blank(value.as_str()) {
                        None
                    } else {
                        Some(value.clone())
                    },
                    None => None,
                };
                ReviewRow::Prompt { step: i, answer, skipped: self.was_skipped(id) }
            },
            Step::Combat { index, .. } => self.review_debrief(i, *index),
            Step::Narrative => ReviewRow::Blank { step: i },
        }
    }

    /// The review row of engagement `engagement`'s debrief at `step`.
    pub fn review_debrief(&self, step: usize, engagement: usize) -> (r: ReviewRow)
        ensures
            r@ == spec_review_debrief(*self, step as nat, engagement as nat),
    {
        if engagement < self.engagements.len() {
            let saved = self.report_saved(engagement);
            ReviewRow::Debrief { step, engagement, saved, missing: !self.engagements[engagement].is_kill && !saved }
        } else {
            ReviewRow::Blank { step }
        }
    }

    /// The review: a row for each step but the narrative, in step order.
    pub fn review_rows(&self) -> (r: Vec<ReviewRow>)
        ensures
            review_views(r@) == review_rows_upto(*self, self.spec_steps().len() as int),
    {
        let mut rows: Vec<ReviewRow> = Vec::new();
        let mut i: usize = 0;
        while i < self.steps.len()
            invariant
                i <= self.spec_steps().len(),
                self.spec_steps().len() == self.steps@.len(),
                review_views(rows@) == review_rows_upto(*self, i as int),
            decreases self.steps.len() - i,
        {
            let narrative = match &self.steps[i] {
                Step::Narrative => true,
                _ => false,
            };
            if !narrative {
                let row = self.review_row(i);
                let ghost prev = rows@;
                rows.push(row);
                assert(review_views(rows@) =~= review_views(prev).push(row@));
            }
            i = i + 1;
        }
        rows
    }
}

/// Next on a question or on the narrative with a non-blank draft marks that step done.
pub proof fn lemma_next_marks_the_step_done(a: State, b: State, r: Persist)
    requires
        a.wf(),
        !blank(a.spec_draft_text()),
        !(a.spec_steps()[a.spec_step() as int] is Combat),
        next_taken(a, b, r),
    ensures
        step_is_done(b, a.spec_step() as int),
{
    crate::text::lemma_trimmed_empty_iff_blank(a.spec_draft_text());
    crate::text::lemma_trimmed_blank_is_empty(a.spec_draft_text());
}

/// What Next stored is what Back shows: stepping back from the following step reopens the
/// question with its trimmed answer in the editor.
pub proof fn lemma_back_reopens_the_stored_answer(a: State, b: State, c: State, r: Persist)
    requires
        a.wf(),
        a.spec_step() + 1 < a.spec_steps().len(),
        a.spec_steps()[a.spec_step() as int] is Prompt,
        !blank(a.spec_draft_text()),
        next_taken(a, b, r),
        moved_back(b, c),
    ensures
        c.spec_step() == a.spec_step(),
        c.spec_draft_text() == trimmed(a.spec_draft_text()),
{
    crate::text::lemma_trimmed_empty_iff_blank(a.spec_draft_text());
}

/// The position of a catalog slot in `AnswerKey::ALL`.
pub open spec fn key_rank(key: AnswerKey) -> nat {
    match key {
        AnswerKey::Blocked => 0,
        AnswerKey::Build => 1,
        AnswerKey::Combat => 2,
        AnswerKey::Goal => 3,
        AnswerKey::Next => 4,
        AnswerKey::Remember => 5,
        AnswerKey::Research => 6,
        AnswerKey::Skill => 7,
    }
}

/// The catalog answer that seeds `id`: the non-blank text of the slot whose question id it is.
pub open spec fn typed_seed(log: CaptainsLog, id: Seq<char>) -> Option<Seq<char>> {
    match AnswerKey::spec_from_key(id) {
        Some(key) => match log.typed_answer(key) {
            Some(text) => if blank(text@) { None } else { Some(text@) },
            None => None,
        },
        None => None,
    }
}

/// The first non-blank custom answer stored under `id`.
pub open spec fn first_non_blank(entries: Seq<(String, String)>, id: Seq<char>) -> Option<Seq<char>>
    decreases entries.len(),
{
    if entries.len() == 0 {
        None
    } else if entries[0].0@ == id && !blank(entries[0].1@) {
        Some(entries[0].1@)
    } else {
        first_non_blank(entries.drop_first(), id)
    }
}

/// The answer the wizard opens with for `id`: the day's narrative under the narrative id, then
/// the catalog slot's text, then the first non-blank custom answer; blank texts never seed.
pub open spec fn seeded_answer(log: CaptainsLog, id: Seq<char>) -> Option<Seq<char>> {
    if id == NARRATIVE_ID@ && (log.narrative matches Some(n) && !blank(n@)) {
        Some(log.narrative.unwrap()@)
    } else if typed_seed(log, id) is Some {
        typed_seed(log, id)
    } else {
        first_non_blank(log.answers@, id)
    }
}

/// Every answer a day's log seeds the wizard with, by question id.
pub open spec fn seeded_answers(log: Option<CaptainsLog>) -> Map<Seq<char>, Seq<char>> {
    match log {
        Some(l) => Map::new(|id: Seq<char>| seeded_answer(l, id) is Some, |id: Seq<char>| seeded_answer(l, id).unwrap()),
        None => Map::empty(),
    }
}

proof fn lemma_first_non_blank_push(entries: Seq<(String, String)>, e: (String, String), id: Seq<char>)
    ensures
        first_non_blank(entries.push(e), id) == (if first_non_blank(entries, id) is Some {
            first_non_blank(entries, id)
        } else if e.0@ == id && !blank(e.1@) {
            Some(e.1@)
        } else {
            None
        }),
    decreases entries.len(),
{
    if entries.len() > 0 {
        assert(entries.push(e).drop_first() =~= entries.drop_first().push(e));
        assert(entries.push(e)[0] == entries[0]);
        lemma_first_non_blank_push(entries.drop_first(), e, id);
    } else {
        assert(entries.push(e).drop_first() =~= Seq::<(String, String)>::empty());
        assert(entries.push(e)[0] == e);
        assert(first_non_blank(Seq::<(String, String)>::empty(), id) is None);
        assert(first_non_blank(entries, id) is None);
    }
}

proof fn lemma_narrative_is_not_a_catalog_id()
    ensures
        AnswerKey::spec_from_key(NARRATIVE_ID@) is None,
{
    reveal_strlit("narrative");
    reveal_strlit("blocked");
    reveal_strlit("build");
    reveal_strlit("combat");
    reveal_strlit("goal");
    reveal_strlit("next");
    reveal_strlit("remember");
    reveal_strlit("research");
    reveal_strlit("skill");
    assert(NARRATIVE_ID@.len() == 9);
}

/// The non-blank text of catalog slot `key`.
pub open spec fn typed_text(log: CaptainsLog, key: AnswerKey) -> Option<Seq<char>> {
    match log.typed_answer(key) {
        Some(t) => if blank(t@) { None } else { Some(t@) },
        None => None,
    }
}

/// The day's log holds a non-blank narrative.
pub open spec fn narrated(log: CaptainsLog) -> bool {
    log.narrative is Some && !blank(log.narrative.unwrap()@)
}

/// Some catalog slot named `id` holds a non-blank answer.
pub open spec fn typed_claims(log: CaptainsLog, id: Seq<char>) -> bool {
    exists|key: AnswerKey| key.name() == id && (#[trigger] typed_text(log, key)) is Some
}

/// Entry `i` is the first non-blank custom answer under its id.
pub open spec fn first_custom(entries: Seq<(String, String)>, i: int) -> bool {
    &&& 0 <= i < entries.len()
    &&& !blank(entries[i].1@)
    &&& forall|j: int| 0 <= j < i ==> !(entries[j].0@ == entries[i].0@ && !blank(#[trigger] entries[j].1@))
}

proof fn lemma_first_custom_seeds(entries: Seq<(String, String)>, i: int)
    requires
        first_custom(entries, i),
    ensures
        first_non_blank(entries, entries[i].0@) == Some(entries[i].1@),
    decreases i,
{
    if i > 0 {
        assert(!(entries[0].0@ == entries[i].0@ && !blank(entries[0].1@)));
        let rest = entries.drop_first();
        assert(rest[i - 1] == entries[i]);
        assert forall|j: int| 0 <= j < i - 1 implies !(rest[j].0@ == rest[i - 1].0@ && !blank(#[trigger] rest[j].1@)) by {
            assert(rest[j] == entries[j + 1]);
        }
        lemma_first_custom_seeds(rest, i - 1);
    }
}

proof fn lemma_first_non_blank_found(entries: Seq<(String, String)>, id: Seq<char>)
    requires
        first_non_blank(entries, id) is Some,
    ensures
        exists|i: int| #[trigger] first_custom(entries, i) && entries[i].0@ == id
            && first_non_blank(entries, id) == Some(entries[i].1@),
    decreases entries.len(),
{
    if entries[0].0@ == id && !blank(entries[0].1@) {
        assert(first_custom(entries, 0));
    } else {
        let rest = entries.drop_first();
        lemma_first_non_blank_found(rest, id);
        let k = choose|k: int| #[trigger] first_custom(rest, k) && rest[k].0@ == id
            && first_non_blank(rest, id) == Some(rest[k].1@);
        assert(rest[k] == entries[k + 1]);
        assert forall|j: int| 0 <= j < k + 1 implies !(entries[j].0@ == entries[k + 1].0@ && !blank(#[trigger] entries[j].1@)) by {
            if j > 0 {
                assert(rest[j - 1] == entries[j]);
            }
        }
        assert(first_custom(entries, k + 1));
    }
}

/// What the wizard opens a day's log with: nothing without a log; otherwise each non-blank
/// catalog answer under its slot's id, each first non-blank custom answer under its id unless
/// a catalog answer claims that id, the non-blank narrative under the narrative id, no other
/// id, and never a blank text.
pub proof fn lemma_seeded_answers_entries(log: Option<CaptainsLog>)
    ensures
        log is None ==> seeded_answers(log) == Map::<Seq<char>, Seq<char>>::empty(),
        log matches Some(l) ==> {
            let m = seeded_answers(log);
            &&& forall|key: AnswerKey| #[trigger] typed_text(l, key) is Some
                ==> m.contains_key(key.name()) && m[key.name()] == typed_text(l, key).unwrap()
            &&& forall|i: int| #[trigger] first_custom(l.answers@, i) && !typed_claims(l, l.answers@[i].0@)
                && l.answers@[i].0@ != NARRATIVE_ID@
                ==> m.contains_key(l.answers@[i].0@) && m[l.answers@[i].0@] == l.answers@[i].1@
            &&& narrated(l) ==> m.contains_key(NARRATIVE_ID@) && m[NARRATIVE_ID@] == l.narrative.unwrap()@
            &&& forall|id: Seq<char>| #[trigger] m.contains_key(id) ==> {
                &&& !blank(m[id])
                &&& typed_claims(l, id) || (exists|i: int| #[trigger] first_custom(l.answers@, i) && l.answers@[i].0@ == id)
                    || (id == NARRATIVE_ID@ && narrated(l))
            }
        },
{
    lemma_narrative_is_not_a_catalog_id();
    if let Some(l) = log {
        let m = seeded_answers(log);
        assert forall|key: AnswerKey| #[trigger] typed_text(l, key) is Some
            implies m.contains_key(key.name()) && m[key.name()] == typed_text(l, key).unwrap() by {
            crate::log_model::lemma_answer_key_round_trip(key);
        }
        assert forall|i: int| #[trigger] first_custom(l.answers@, i) && !typed_claims(l, l.answers@[i].0@)
            && l.answers@[i].0@ != NARRATIVE_ID@
            implies m.contains_key(l.answers@[i].0@) && m[l.answers@[i].0@] == l.answers@[i].1@ by {
            let id = l.answers@[i].0@;
            lemma_first_custom_seeds(l.answers@, i);
            if let Some(key) = AnswerKey::spec_from_key(id) {
                assert(key.name() == id);
                if typed_text(l, key) is Some {
                    assert(typed_claims(l, id));
                }
            }
        }
        assert forall|id: Seq<char>| #[trigger] m.contains_key(id) implies {
            &&& !blank(m[id])
            &&& typed_claims(l, id) || (exists|i: int| #[trigger] first_custom(l.answers@, i) && l.answers@[i].0@ == id)
                || (id == NARRATIVE_ID@ && narrated(l))
        } by {
            if id == NARRATIVE_ID@ && narrated(l) {
            } else if typed_seed(l, id) is Some {
                let key = AnswerKey::spec_from_key(id).unwrap();
                assert(key.name() == id);
                assert(typed_text(l, key) is Some);
                assert(typed_claims(l, id));
            } else {
                lemma_first_non_blank_found(l.answers@, id);
            }
        }
    } else {
        assert(seeded_answers(log) =~= Map::<Seq<char>, Seq<char>>::empty());
    }
}

/// The answers a day's log seeds the wizard with: each non-blank catalog answer under its
/// question id, each non-blank custom answer whose id no catalog answer took, and the
/// non-blank narrative under the narrative id.
pub fn load_answers(log: Option<&CaptainsLog>) -> (r: AnswerMap)
    ensures
        r@ == seeded_answers(match log {
            Some(l) => Some(*l),
            None => None,
        }),
{
    let mut answers = AnswerMap::new();
    let log = match log {
        Some(l) => l,
        None => {
            assert(answers@ =~= Map::<Seq<char>, Seq<char>>::empty());
            return answers;
        },
    };
    let keys = AnswerKey::ALL;
    let mut i: usize = 0;
    while i < 8
        invariant
            i <= 8,
            keys == AnswerKey::ALL,
            forall|id: Seq<char>| #![trigger answers@.contains_key(id)]
                answers@.contains_key(id) == (typed_seed(*log, id) is Some && key_rank(AnswerKey::spec_from_key(id).unwrap()) < i),
            forall|id: Seq<char>| #![trigger answers@[id]]
                answers@.contains_key(id) ==> answers@[id] == typed_seed(*log, id).unwrap(),
        decreases 8 - i,
    {
        let key = keys[i];
        assert(key_rank(key) == i);
        proof {
            crate::log_model::lemma_answer_key_round_trip(key);
        }
        match log.answer_text(key) {
            Some(text) => {
                if !is_blank(text.as_str()) {
                    answers.insert(key.as_key().to_owned(), text.clone());
                }
            },
            None => {},
        }
        i = i + 1;
    }
    let mut j: usize = 0;
    while j < log.answers.len()
        invariant
            j <= log.answers.len(),
            forall|id: Seq<char>| #![trigger answers@.contains_key(id)]
                answers@.contains_key(id) == (typed_seed(*log, id) is Some || first_non_blank(log.answers@.take(j as int), id) is Some),
            forall|id: Seq<char>| #![trigger answers@[id]]
                answers@.contains_key(id) ==> answers@[id] == (if typed_seed(*log, id) is Some {
                    typed_seed(*log, id).unwrap()
                } else {
                    first_non_blank(log.answers@.take(j as int), id).unwrap()
                }),
        decreases log.answers.len() - j,
    {
        proof {
            assert(log.answers@.take(j + 1) =~= log.answers@.take(j as int).push(log.answers@[j as int]));
            assert forall|id: Seq<char>| true implies first_non_blank(log.answers@.take(j + 1), id) == (if first_non_blank(log.answers@.take(j as int), id) is Some {
                first_non_blank(log.answers@.take(j as int), id)
            } else if log.answers@[j as int].0@ == id && !blank(log.answers@[j as int].1@) {
                Some(log.answers@[j as int].1@)
            } else {
                None
            }) by {
                lemma_first_non_blank_push(log.answers@.take(j as int), log.answers@[j as int], id);
            }
        }
        let id = &log.answers[j].0;
        let value = &log.answers[j].1;
        if !is_blank(value.as_str()) && !answers.contains(id.as_str()) {
            answers.insert(id.clone(), value.clone());
        }
        j = j + 1;
    }
    assert(log.answers@.take(log.answers.len() as int) =~= log.answers@);
    match &log.narrative {
        Some(text) => {
            if !is_blank(text.as_str()) {
                answers.insert(NARRATIVE_ID.to_owned(), text.clone());
            }
        },
        None => {},
    }
    proof {
        lemma_narrative_is_not_a_catalog_id();
        assert(answers@ =~= seeded_answers(Some(*log)));
    }
    answers
}

} // verus!
