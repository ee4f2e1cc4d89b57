use pod_roster::log_model::{AnswerKey, CaptainsLog, PromptConfig, PromptQuestion, PromptQuestionKind};
use pod_roster::prompts::{
    prompts_for_day, DayActivity, DisplayText, IndustryEvidence, Prompt, PromptGroup, SkillEvidence, Trigger,
};
use pod_roster::km_report;
use pod_roster::past::DebriefKey;
use pod_roster::wizard::{
    build_steps, evidence_for, group_tint, kind_label_key, load_answers, next_label_key, question_label,
    question_placeholder, runs_label_key, section_label, trigger_reason_key, unanswered_key, update_pane, DotFill,
    Evidence, GroupTint, Message, Persist, ReviewRow, State, Step, GROUP_NARRATIVE_KEY, NARRATIVE_ID,
};

fn quiet_state() -> State {
    State::new(&PromptConfig::default(), &DayActivity::default(), &Vec::new(), None, false)
}

fn combat_activity(count: u32) -> DayActivity {
    DayActivity { engagement_count: count, ..DayActivity::default() }
}

fn engagements(count: u32) -> Vec<DebriefKey> {
    (0..count)
        .map(|i| DebriefKey { character_id: 90000001, killmail_id: 1000 + i as i64, is_kill: i % 2 == 0 })
        .collect()
}

fn combat_state(count: u32) -> State {
    State::new(&PromptConfig::default(), &combat_activity(count), &engagements(count), None, false)
}

fn last_step(state: &State) -> usize {
    state.step_count() - 1
}

fn literal(text: &DisplayText) -> Option<&str> {
    match text {
        DisplayText::Literal(s) => Some(s.as_str()),
        DisplayText::Key(_) => None,
    }
}

fn key(text: &DisplayText) -> Option<&str> {
    match text {
        DisplayText::Key(s) => Some(s.as_str()),
        DisplayText::Literal(_) => None,
    }
}

#[test]
fn it_lists_only_core_and_forward_prompts_plus_narrative_on_a_quiet_day() {
    let steps = build_steps(&PromptConfig::default(), &DayActivity::default(), 0);

    assert_eq!(steps.len(), 6);
    assert!(matches!(steps.last(), Some(Step::Narrative)));
    assert_eq!(steps.iter().filter(|step| matches!(step, Step::Prompt(_))).count(), 5);
}

#[test]
fn it_ends_the_wizard_on_the_narrative_step() {
    let steps = build_steps(&PromptConfig::default(), &combat_activity(2), 2);

    assert!(matches!(steps.last(), Some(Step::Narrative)));
    assert_eq!(steps.iter().filter(|step| matches!(step, Step::Narrative)).count(), 1);
}

#[test]
fn it_expands_the_combat_prompt_into_one_step_per_engagement() {
    let steps = build_steps(&PromptConfig::default(), &combat_activity(3), 3);

    let combat = steps.iter().filter(|step| matches!(step, Step::Combat { .. })).count();
    assert_eq!(combat, 3);
    assert_eq!(steps.len(), 9);
    let indices: Vec<usize> = steps
        .iter()
        .filter_map(|step| match step {
            Step::Combat { index, .. } => Some(*index),
            _ => None,
        })
        .collect();
    assert_eq!(indices, vec![0, 1, 2]);
}

#[test]
fn it_orders_combat_before_the_forward_prompts() {
    let steps = build_steps(&PromptConfig::default(), &combat_activity(1), 1);

    let combat_at = steps.iter().position(|step| matches!(step, Step::Combat { .. })).unwrap();
    let next_at = steps
        .iter()
        .position(|step| matches!(step, Step::Prompt(prompt) if prompt.id == "next"))
        .unwrap();

    assert!(combat_at < next_at);
}

#[test]
fn it_walks_forward_without_finishing_until_the_last_step() {
    let mut state = quiet_state();

    state.advance();

    assert_eq!(state.step(), 1);
    assert!(!state.is_finished());
}

#[test]
fn it_transitions_to_review_after_the_final_step() {
    let mut state = quiet_state();
    let last = last_step(&state);
    state.jump_to(last);

    state.advance();

    assert!(state.is_finished());
    assert_eq!(state.step(), last);
}

#[test]
fn it_persists_the_answer_and_advances_on_next() {
    let mut state = quiet_state();
    state.edit_draft("Barge line.".to_owned());

    let persist = state.next_requested();

    assert_eq!(state.answer("goal").map(String::as_str), Some("Barge line."));
    assert_eq!(state.step(), 1);
    assert!(matches!(persist, Persist::Answer { id, value: Some(v) } if id == "goal" && v == "Barge line."));
}

#[test]
fn a_blank_draft_is_stored_as_cleared() {
    let mut state = quiet_state();
    state.edit_draft("   ".to_owned());

    let persist = state.next_requested();

    assert_eq!(state.answer("goal"), None);
    assert!(matches!(persist, Persist::Answer { id, value: None } if id == "goal"));
}

#[test]
fn it_marks_a_prompt_skipped_and_advances() {
    let mut state = quiet_state();

    state.skip();

    assert!(state.was_skipped("goal"));
    assert!(!state.was_skipped("remember"));
    assert_eq!(state.step(), 1);
}

#[test]
fn it_steps_back_without_dropping_below_zero() {
    let mut state = quiet_state();
    state.jump_to(2);

    state.back();
    assert_eq!(state.step(), 1);

    state.jump_to(0);
    state.back();
    assert_eq!(state.step(), 0);
}

#[test]
fn it_returns_to_composing_from_review_via_jump() {
    let mut state = State::new(&PromptConfig::default(), &DayActivity::default(), &Vec::new(), None, true);

    state.jump_to(1);

    assert!(!state.is_finished());
    assert_eq!(state.step(), 1);
}

#[test]
fn a_jump_past_the_end_changes_nothing() {
    let mut state = quiet_state();

    state.jump_to(99);

    assert_eq!(state.step(), 0);
    assert!(!state.is_finished());
}

#[test]
fn it_persists_a_custom_question_answer_by_id() {
    let mut config = PromptConfig::default();
    config.sections[0].questions.push(PromptQuestion {
        id: "mood".to_owned(),
        kind: PromptQuestionKind::Text,
        label: "Mood".to_owned(),
        i18n_key: String::new(),
        placeholder: String::new(),
        required: false,
    });
    let mut state = State::new(&config, &DayActivity::default(), &Vec::new(), None, false);
    state.jump_to(3);
    state.edit_draft("focused".to_owned());

    let _ = state.next_requested();

    assert_eq!(state.answer("mood").map(String::as_str), Some("focused"));
}

#[test]
fn it_records_a_saved_debrief_from_a_report_message() {
    let mut state = combat_state(1);
    let combat_at = (0..state.step_count())
        .position(|i| matches!(state.step_at(i), Some(Step::Combat { .. })))
        .unwrap();
    assert!(!state.step_done(combat_at));

    state.note_report_status(0, &km_report::Message::Saved);

    assert!(state.report_saved(0));
    assert!(state.step_done(combat_at));
}

#[test]
fn it_clears_a_debrief_when_a_load_finds_nothing() {
    let mut state = combat_state(1);
    state.note_report_status(0, &km_report::Message::Saved);

    state.note_report_status(0, &km_report::Message::Loaded(None));

    assert!(!state.report_saved(0));
}

#[test]
fn it_seeds_authored_answers_and_ignores_blanks() {
    let log = CaptainsLog {
        goal: Some("Spin up the barge line.".to_owned()),
        remember: Some("   ".to_owned()),
        ..CaptainsLog::empty(String::new())
    };

    let answers = load_answers(Some(&log));

    assert_eq!(answers.get("goal").map(String::as_str), Some("Spin up the barge line."));
    assert!(!answers.contains("remember"));
}

#[test]
fn it_seeds_custom_answers_from_the_string_map() {
    let mut log = CaptainsLog::empty(String::new());
    log.insert_answer("mood".to_owned(), "focused".to_owned());

    let answers = load_answers(Some(&log));

    assert_eq!(answers.get("mood").map(String::as_str), Some("focused"));
}

#[test]
fn it_captures_the_narrative_and_finishes_on_the_final_step() {
    let mut state = quiet_state();
    let last = last_step(&state);
    state.jump_to(last);
    assert!(matches!(state.step_at(last), Some(Step::Narrative)));
    state.edit_draft("One frigate saved a fleet.".to_owned());

    let persist = state.next_requested();

    assert!(state.is_finished());
    assert_eq!(state.answer(NARRATIVE_ID).map(String::as_str), Some("One frigate saved a fleet."));
    assert!(matches!(persist, Persist::Narrative(Some(v)) if v == "One frigate saved a fleet."));
}

#[test]
fn it_seeds_the_narrative_draft_from_the_log() {
    let log = CaptainsLog { narrative: Some("Clean roam.".to_owned()), ..CaptainsLog::empty(String::new()) };

    let answers = load_answers(Some(&log));

    assert_eq!(answers.get(NARRATIVE_ID).map(String::as_str), Some("Clean roam."));
}

#[test]
fn the_editor_opens_with_the_stored_answer() {
    let log = CaptainsLog { goal: Some("Haul ore.".to_owned()), ..CaptainsLog::empty(String::new()) };

    let state = State::new(&PromptConfig::default(), &DayActivity::default(), &Vec::new(), Some(&log), false);

    assert_eq!(state.draft(), "Haul ore.");
}

#[test]
fn it_pluralizes_the_runs_label() {
    assert_eq!(runs_label_key(1), "captains_log.wizard.evidence_runs_one");
    assert_ne!(runs_label_key(1), runs_label_key(3));
    assert_eq!(runs_label_key(3), "captains_log.wizard.evidence_runs_other");
}

fn goal_prompt(label: &str, placeholder: &str) -> Prompt {
    Prompt {
        group: PromptGroup::Core,
        i18n_key: "captains_log.wizard.goal_label".to_owned(),
        id: "goal".to_owned(),
        key: Some(AnswerKey::Goal),
        label: label.to_owned(),
        placeholder: placeholder.to_owned(),
        required: true,
        section_i18n_key: String::new(),
        section_label: String::new(),
        trigger: None,
    }
}

#[test]
fn an_edited_default_question_label_overrides_the_catalog_i18n() {
    assert_eq!(literal(&question_label(&goal_prompt("Renamed goal", ""))), Some("Renamed goal"));
}

#[test]
fn an_unedited_default_question_label_falls_back_to_the_catalog_i18n() {
    assert_eq!(key(&question_label(&goal_prompt("", ""))), Some("captains_log.wizard.goal_label"));
}

#[test]
fn an_edited_default_question_placeholder_overrides_the_catalog_i18n() {
    assert_eq!(literal(&question_placeholder(&goal_prompt("", "Type here"))), Some("Type here"));
    assert_eq!(key(&question_placeholder(&goal_prompt("", ""))), Some("captains_log.wizard.goal_placeholder"));
}

#[test]
fn an_edited_section_label_overrides_the_catalog_i18n() {
    let mut prompt = goal_prompt("", "");
    prompt.section_i18n_key = "captains_log.wizard.group_core".to_owned();
    prompt.section_label = "My Day".to_owned();

    assert_eq!(literal(&section_label(&prompt)), Some("My Day"));

    prompt.section_label = String::new();
    assert_eq!(key(&section_label(&prompt)), Some("captains_log.wizard.group_core"));
}

#[test]
fn the_pane_routes_a_debrief_save_to_its_engagement() {
    let mut state = combat_state(2);

    let edited = update_pane(&mut state, Message::Report(1, km_report::Message::HappenedEdited("  Got baited.  ".to_owned())));
    assert!(matches!(edited, Persist::Nothing));

    let persist = update_pane(&mut state, Message::Report(1, km_report::Message::SaveRequested("2024-05-01T12:00:00Z".to_owned())));
    match persist {
        Persist::Report { index, input } => {
            assert_eq!(index, 1);
            assert_eq!(input.happened, "Got baited.");
            assert_eq!(input.outcome, "costly");
        },
        other => panic!("expected a debrief save, got {other:?}"),
    }
    assert!(!state.report_saved(1));
    assert!(!state.report(1).unwrap().is_editing());
    assert!(state.report(0).unwrap().is_editing());

    let _ = update_pane(&mut state, Message::Report(1, km_report::Message::Saved));
    assert!(state.report_saved(1));
    assert!(!state.report_saved(0));
}

#[test]
fn the_pane_ignores_a_debrief_for_an_unknown_engagement() {
    let mut state = combat_state(1);

    let persist = update_pane(&mut state, Message::Report(5, km_report::Message::Saved));

    assert!(matches!(persist, Persist::Nothing));
    assert!(!state.report_saved(0));
    assert!(state.report(5).is_none());
}

#[test]
fn the_pane_stores_the_edited_draft_on_next() {
    let mut state = quiet_state();

    let _ = update_pane(&mut state, Message::DraftEdited(" Mine the belt. ".to_owned()));
    let persist = update_pane(&mut state, Message::NextRequested);

    assert!(matches!(persist, Persist::Answer { id, value: Some(v) } if id == "goal" && v == "Mine the belt."));
    assert_eq!(state.step(), 1);

    let _ = update_pane(&mut state, Message::Back);
    assert_eq!(state.step(), 0);
    assert_eq!(state.draft(), "Mine the belt.");
}

#[test]
fn the_pane_selects_steps_and_leaves_the_review() {
    let mut state = State::new(&PromptConfig::default(), &DayActivity::default(), &Vec::new(), None, true);

    let _ = update_pane(&mut state, Message::ContinueEditing);
    assert!(!state.is_finished());

    let _ = update_pane(&mut state, Message::StepSelected(2));
    assert_eq!(state.step(), 2);

    let _ = update_pane(&mut state, Message::SkipRequested);
    assert_eq!(state.step(), 3);

    let persist = update_pane(&mut state, Message::Saved);
    assert!(matches!(persist, Persist::Nothing));
    assert_eq!(state.step(), 3);
}

fn engagement(character_id: i64, killmail_id: i64, is_kill: bool) -> DebriefKey {
    DebriefKey { character_id, killmail_id, is_kill }
}

fn evidence_activity() -> DayActivity {
    DayActivity {
        industry_count: 1,
        industry: vec![IndustryEvidence {
            character_id: 2,
            character_name: "Builder".to_owned(),
            product: "Hulk".to_owned(),
            product_type_id: Some(22544),
            runs: 3,
        }],
        skill_count: 1,
        skills: vec![SkillEvidence {
            character_id: 1,
            character_name: "Pilot".to_owned(),
            level: 5,
            skill: "Caldari Cruiser".to_owned(),
        }],
        ..DayActivity::default()
    }
}

fn triggered_prompt(trigger: Trigger) -> Prompt {
    prompts_for_day(&PromptConfig::default(), &evidence_activity())
        .into_iter()
        .find(|prompt| prompt.trigger == Some(trigger))
        .expect("the conditional prompt fires for the evidence activity")
}

#[test]
fn it_renders_saved_missing_and_out_of_range_debriefs() {
    let mut state = State::new(
        &PromptConfig::default(),
        &combat_activity(2),
        &vec![engagement(4, 100, false), engagement(5, 200, true)],
        None,
        false,
    );

    // A loss with no saved report is flagged missing.
    assert!(matches!(
        state.review_debrief(0, 0),
        ReviewRow::Debrief { step: 0, engagement: 0, saved: false, missing: true }
    ));
    // A kill with no report is not flagged missing but still links back.
    assert!(matches!(
        state.review_debrief(1, 1),
        ReviewRow::Debrief { step: 1, engagement: 1, saved: false, missing: false }
    ));

    // A saved report is shown inline.
    state.note_report_status(0, &km_report::Message::Saved);
    assert!(matches!(
        state.review_debrief(0, 0),
        ReviewRow::Debrief { engagement: 0, saved: true, missing: false, .. }
    ));

    // An out-of-range engagement collapses to nothing.
    assert!(matches!(state.review_debrief(0, 99), ReviewRow::Blank { step: 0 }));
}

#[test]
fn it_omits_the_narrative_from_the_review_rows() {
    let mut state = State::new(&PromptConfig::default(), &evidence_activity(), &Vec::new(), None, false);
    state.set_answer(NARRATIVE_ID, "Logged.".to_owned());

    let rows = state.review_rows();

    assert!(matches!(state.step_at(state.step_count() - 1), Some(Step::Narrative)));
    assert_eq!(rows.len(), state.step_count() - 1);
    for (i, row) in rows.iter().enumerate() {
        assert!(matches!(row, ReviewRow::Prompt { step, .. } if *step == i));
    }
}

#[test]
fn the_review_shows_answers_and_skips() {
    let mut state = quiet_state();
    state.edit_draft("Haul ore.".to_owned());
    let _ = state.next_requested();
    state.skip();

    let rows = state.review_rows();

    assert_eq!(rows.len(), 5);
    assert!(matches!(&rows[0], ReviewRow::Prompt { step: 0, answer: Some(a), skipped: false } if a == "Haul ore."));
    assert!(matches!(&rows[1], ReviewRow::Prompt { step: 1, answer: None, skipped: true }));
    assert!(matches!(&rows[2], ReviewRow::Prompt { step: 2, answer: None, skipped: false }));
}

#[test]
fn the_review_lists_each_engagement_debrief() {
    let state = State::new(
        &PromptConfig::default(),
        &combat_activity(2),
        &vec![engagement(4, 100, false), engagement(5, 200, true)],
        None,
        false,
    );

    let debriefs: Vec<(usize, bool)> = state
        .review_rows()
        .iter()
        .filter_map(|row| match row {
            ReviewRow::Debrief { engagement, missing, .. } => Some((*engagement, *missing)),
            _ => None,
        })
        .collect();

    assert_eq!(debriefs, vec![(0, true), (1, false)]);
}

#[test]
fn it_builds_a_skill_evidence_strip_for_the_skill_prompt() {
    let prompt = triggered_prompt(Trigger::Skills);

    assert_eq!(evidence_for(&evidence_activity(), &prompt), Some(Evidence::Skills));
}

#[test]
fn it_builds_an_industry_evidence_strip_for_the_build_prompt() {
    let prompt = triggered_prompt(Trigger::Industry);

    assert_eq!(evidence_for(&evidence_activity(), &prompt), Some(Evidence::Industry));
}

#[test]
fn it_omits_a_strip_when_no_items_are_present() {
    let prompt = triggered_prompt(Trigger::Skills);

    assert_eq!(evidence_for(&DayActivity::default(), &prompt), None);
    assert_eq!(evidence_for(&evidence_activity(), &goal_prompt("", "")), None);
}

#[test]
fn the_rail_fills_the_current_dot_and_the_done_steps() {
    let mut state = quiet_state();
    state.edit_draft("Haul ore.".to_owned());
    let _ = state.next_requested();

    assert_eq!(state.dot_fill(0), DotFill::Done);
    assert_eq!(state.dot_fill(1), DotFill::Active);
    assert_eq!(state.dot_fill(2), DotFill::Open);
    assert_eq!(state.dot_fill(99), DotFill::Open);
}

#[test]
fn the_rail_names_the_current_section() {
    let mut state = State::new(&PromptConfig::default(), &combat_activity(1), &vec![engagement(4, 100, false)], None, false);
    let combat_at = (0..state.step_count())
        .position(|i| matches!(state.step_at(i), Some(Step::Combat { .. })))
        .unwrap();
    state.jump_to(combat_at);
    assert_eq!(state.current_group_meta().0, GroupTint::Warning);

    let last = last_step(&state);
    state.jump_to(last);
    let (tint, label) = state.current_group_meta();
    assert_eq!(tint, GroupTint::Accent);
    assert_eq!(key(&label), Some(GROUP_NARRATIVE_KEY));

    assert_eq!(group_tint(PromptGroup::Forward), GroupTint::Forward);
    assert_eq!(group_tint(PromptGroup::Conditional), GroupTint::Warning);
    assert_eq!(group_tint(PromptGroup::Custom), GroupTint::Accent);
}

#[test]
fn the_wizard_picks_its_button_and_link_keys() {
    assert_eq!(next_label_key(true, true), "captains_log.wizard.finish");
    assert_eq!(next_label_key(false, true), "captains_log.wizard.save_entry");
    assert_eq!(next_label_key(true, false), "captains_log.wizard.next");
    assert_eq!(unanswered_key(true, true), "captains_log.wizard.skipped_debrief");
    assert_eq!(unanswered_key(true, false), "captains_log.wizard.not_debriefed");
    assert_eq!(unanswered_key(false, true), "captains_log.wizard.skipped_add");
    assert_eq!(unanswered_key(false, false), "captains_log.wizard.not_answered");
    assert_eq!(kind_label_key(true), "captains_log.wizard.kill");
    assert_eq!(kind_label_key(false), "captains_log.wizard.loss");
    assert_eq!(trigger_reason_key(Trigger::Engagement), "captains_log.wizard.reason_losses");
    assert_eq!(trigger_reason_key(Trigger::Industry), "captains_log.wizard.reason_industry");
    assert_eq!(trigger_reason_key(Trigger::Skills), "captains_log.wizard.reason_skills");
}

#[test]
fn the_wizard_has_a_step_per_prompt_and_per_engagement_plus_the_narrative() {
    let config = PromptConfig::default();
    for engagements in [0u32, 1, 3] {
        let prompts = pod_roster::prompts::prompts_for_day(&config, &combat_activity(engagements.max(1)));
        let combat = prompts.iter().filter(|p| p.key == Some(AnswerKey::Combat)).count() as i64;
        let steps = build_steps(&config, &combat_activity(engagements.max(1)), engagements as usize);
        assert_eq!(steps.len() as i64, prompts.len() as i64 + 1 + combat * (engagements as i64 - 1));
    }
}

#[test]
fn a_catalog_answer_wins_its_id_and_blank_texts_never_seed() {
    let mut log = CaptainsLog { goal: Some("Haul ore.".to_owned()), ..CaptainsLog::empty(String::new()) };
    log.insert_answer("goal".to_owned(), "Custom goal".to_owned());
    log.insert_answer("mood".to_owned(), "calm".to_owned());
    log.insert_answer("focus".to_owned(), "  ".to_owned());

    let answers = load_answers(Some(&log));

    assert_eq!(answers.get("goal").map(String::as_str), Some("Haul ore."));
    assert_eq!(answers.get("mood").map(String::as_str), Some("calm"));
    assert!(!answers.contains("focus"));
    assert!(!answers.contains(NARRATIVE_ID));
    assert!(!answers.contains("remember"));
    assert_eq!(load_answers(None).get("goal"), None);
}
