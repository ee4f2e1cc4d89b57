use pod_roster::km_report;
use pod_roster::log_model::{AnswerKey, CaptainsLog, PromptConfig};
use pod_roster::narrative;
use pod_roster::past::{field_label, DebriefKey, Effect, Message, State};
use pod_roster::prompts::{all_field_prompts, Completeness, DisplayText, LossEngagement, Prompt, PromptGroup};
use pod_roster::text::non_blank;

fn default_prompts() -> Vec<Prompt> {
    all_field_prompts(&PromptConfig::default())
}

fn prompt(id: &str) -> Prompt {
    default_prompts().into_iter().find(|prompt| prompt.id == id).unwrap()
}

fn custom_prompt() -> Prompt {
    Prompt {
        group: PromptGroup::Custom,
        i18n_key: String::new(),
        id: "mood".to_owned(),
        key: None,
        label: "Mood".to_owned(),
        placeholder: String::new(),
        required: false,
        section_i18n_key: String::new(),
        section_label: "Daily".to_owned(),
        trigger: None,
    }
}

fn log_with_goal() -> CaptainsLog {
    CaptainsLog { goal: Some("Spin up the barge line.".to_owned()), ..CaptainsLog::empty("2026-07-05".to_owned()) }
}

fn engagement(character_id: i64, killmail_id: i64, is_kill: bool) -> DebriefKey {
    DebriefKey { character_id, killmail_id, is_kill }
}

fn state_with(log: Option<CaptainsLog>, completeness: Completeness, engagements: Vec<DebriefKey>) -> State {
    State::new("2026-07-05".to_owned(), log, completeness, engagements, default_prompts())
}

fn custom_state(log: Option<CaptainsLog>) -> State {
    State::new("2026-07-05".to_owned(), log, Completeness::default(), Vec::new(), vec![custom_prompt()])
}

#[test]
fn it_starts_with_no_field_in_edit_mode() {
    let state = state_with(Some(log_with_goal()), Completeness::default(), Vec::new());

    assert_eq!(state.editing(), None);
    assert!(state.debriefs().is_empty());
}

#[test]
fn it_builds_one_debrief_per_engagement() {
    let state = state_with(None, Completeness::default(), vec![engagement(4, 100, false), engagement(4, 200, true)]);

    assert_eq!(state.debriefs().len(), 2);
    assert_eq!(state.debriefs()[0].killmail_id(), 100);
    assert_eq!(state.debriefs()[0].outcome(), km_report::Outcome::Costly);
    assert_eq!(state.debriefs()[1].outcome(), km_report::Outcome::Clean);
}

#[test]
fn it_returns_the_stored_answer() {
    let state = state_with(Some(log_with_goal()), Completeness::default(), Vec::new());

    assert_eq!(state.answer_of(&prompt("goal")).map(String::as_str), Some("Spin up the barge line."));
}

#[test]
fn it_drops_a_blank_answer() {
    let log = CaptainsLog { goal: Some("   ".to_owned()), ..CaptainsLog::empty("2026-07-05".to_owned()) };

    assert_eq!(state_with(Some(log), Completeness::default(), Vec::new()).answer_of(&prompt("goal")), None);
    assert_eq!(state_with(None, Completeness::default(), Vec::new()).answer_of(&prompt("goal")), None);
}

#[test]
fn it_reads_a_custom_answer_from_the_string_map() {
    let mut log = CaptainsLog::empty("2026-07-05".to_owned());
    log.insert_answer("mood".to_owned(), "focused".to_owned());
    let state = custom_state(Some(log));

    assert_eq!(state.answer_of(&custom_prompt()).map(String::as_str), Some("focused"));
}

#[test]
fn it_trims_and_keeps_authored_text() {
    assert_eq!(non_blank("  logged it  "), Some("logged it".to_owned()));
}

#[test]
fn it_maps_blank_to_nothing() {
    assert_eq!(non_blank("   "), None);
    assert_eq!(non_blank(""), None);
}

#[test]
fn it_creates_the_in_memory_row_on_first_authored_input() {
    let mut state = state_with(None, Completeness::default(), Vec::new());

    state.set_answer("goal", Some("First goal.".to_owned()));

    let row = state.log().expect("row should be created");
    assert_eq!(row.date, "2026-07-05");
    assert_eq!(row.goal.as_deref(), Some("First goal."));
}

#[test]
fn it_clears_an_answer_to_none() {
    let mut state = state_with(Some(log_with_goal()), Completeness::default(), Vec::new());

    state.set_answer("goal", None);

    assert_eq!(state.log().unwrap().goal, None);
}

#[test]
fn it_stores_a_custom_answer_in_the_string_map() {
    let mut state = custom_state(None);

    state.set_answer("mood", Some("focused".to_owned()));

    assert_eq!(state.log().unwrap().custom_answer("mood").map(String::as_str), Some("focused"));
    assert_eq!(state.log().unwrap().goal, None);
}

#[test]
fn it_seeds_the_draft_from_the_current_answer() {
    let mut state = state_with(Some(log_with_goal()), Completeness::default(), Vec::new());

    state.begin_edit("goal".to_owned());

    assert_eq!(state.editing().map(String::as_str), Some("goal"));
    assert_eq!(state.draft().trim(), "Spin up the barge line.");
}

#[test]
fn it_opens_an_empty_draft_for_an_unanswered_field() {
    let mut state = state_with(None, Completeness::default(), Vec::new());

    state.begin_edit("blocked".to_owned());

    assert_eq!(state.editing().map(String::as_str), Some("blocked"));
    assert_eq!(state.draft().trim(), "");
}

#[test]
fn it_cancels_an_edit() {
    let mut state = state_with(Some(log_with_goal()), Completeness::default(), Vec::new());
    state.begin_edit("goal".to_owned());

    let effect = state.update(Message::Cancelled);

    assert!(matches!(effect, Effect::Nothing));
    assert_eq!(state.editing(), None);
}

#[test]
fn it_installs_a_saved_answer_and_leaves_edit_mode() {
    let mut state = state_with(None, Completeness::default(), Vec::new());
    state.begin_edit("goal".to_owned());

    state.update(Message::Saved("goal".to_owned(), Ok(Some("Run one Tama roam.".to_owned()))));

    assert_eq!(state.editing(), None);
    assert_eq!(state.answer_of(&prompt("goal")).map(String::as_str), Some("Run one Tama roam."));
}

#[test]
fn a_failed_save_keeps_the_editor_open() {
    let mut state = state_with(None, Completeness::default(), Vec::new());
    state.begin_edit("goal".to_owned());

    state.update(Message::Saved("goal".to_owned(), Err("locked".to_owned())));

    assert_eq!(state.editing().map(String::as_str), Some("goal"));
    assert!(state.log().is_none());
}

#[test]
fn it_ignores_a_report_message_out_of_range() {
    let mut state = state_with(None, Completeness::default(), Vec::new());

    let effect = state.update(Message::Report(7, km_report::Message::Saved));

    assert!(matches!(effect, Effect::Nothing));
    assert!(state.debriefs().is_empty());
}

#[test]
fn a_report_save_is_routed_to_its_engagement() {
    let mut state = state_with(None, Completeness::default(), vec![engagement(4, 100, false), engagement(4, 200, true)]);
    state.update(Message::Report(1, km_report::Message::HappenedEdited("Caught a Stabber.".to_owned())));

    let effect = state.update(Message::Report(1, km_report::Message::SaveRequested("2026-07-05T20:00:00Z".to_owned())));

    assert!(matches!(effect, Effect::SaveReport { index: 1, input } if input.happened == "Caught a Stabber." && input.outcome == "clean"));
    assert!(state.debriefs()[1].shows_saved());
    assert!(!state.debriefs()[0].shows_saved());
}

#[test]
fn it_persists_a_custom_answer_by_string_id() {
    let mut state = custom_state(None);
    state.update(Message::DraftEdited("  focused ".to_owned()));

    let effect = state.update(Message::SaveRequested("mood".to_owned()));

    assert!(matches!(effect, Effect::SaveAnswer { id, value: Some(v) } if id == "mood" && v == "focused"));
}

#[test]
fn a_blank_save_asks_to_clear_the_answer() {
    let mut state = state_with(Some(log_with_goal()), Completeness::default(), Vec::new());
    state.update(Message::DraftEdited("   ".to_owned()));

    let effect = state.update(Message::SaveRequested("goal".to_owned()));

    assert!(matches!(effect, Effect::SaveAnswer { id, value: None } if id == "goal"));
}

#[test]
fn it_always_shows_core_questions() {
    let state = state_with(None, Completeness::default(), Vec::new());

    assert!(state.show_field(&prompt("blocked")));
}

#[test]
fn it_hides_an_unanswered_optional_forward_question() {
    let state = state_with(None, Completeness::default(), Vec::new());

    assert!(!state.show_field(&prompt("research")));
}

#[test]
fn it_seeds_the_narrative_pane_from_the_day_log() {
    let log = CaptainsLog { narrative: Some("One frigate saved the fleet.".to_owned()), ..log_with_goal() };
    let state = state_with(Some(log), Completeness::default(), Vec::new());

    assert_eq!(state.narrative().text().map(String::as_str), Some("One frigate saved the fleet."));
}

#[test]
fn it_opens_the_narrative_editor_on_an_empty_past_day() {
    let mut state = state_with(None, Completeness::default(), Vec::new());

    let effect = state.update(Message::Narrative(narrative::Message::WriteRequested));

    assert!(matches!(effect, Effect::Nothing));
    assert!(state.narrative().is_editing());
    assert_eq!(state.narrative().draft(), "");
}

#[test]
fn it_routes_a_narrative_edit_request_through_the_past_pane() {
    let log = CaptainsLog { narrative: Some("Old line.".to_owned()), ..log_with_goal() };
    let mut state = state_with(Some(log), Completeness::default(), Vec::new());

    state.update(Message::Narrative(narrative::Message::EditRequested));

    assert!(state.narrative().is_editing());
    assert_eq!(state.narrative().draft(), "Old line.");
}

#[test]
fn a_narrative_save_asks_to_store_the_trimmed_text() {
    let mut state = state_with(None, Completeness::default(), Vec::new());
    state.update(Message::Narrative(narrative::Message::WriteRequested));
    state.update(Message::Narrative(narrative::Message::DraftChanged(" Held the line at Tama. ".to_owned())));

    let effect = state.update(Message::Narrative(narrative::Message::SaveRequested));

    assert!(matches!(effect, Effect::SaveNarrative(Some(v)) if v == "Held the line at Tama."));
}

#[test]
fn missing_fields_and_debriefs_come_from_the_completeness() {
    let completeness = Completeness {
        missing_custom: vec![DisplayText::Literal("Mood".to_owned())],
        missing_debriefs: vec![LossEngagement { character_id: 4, killmail_id: 100 }],
        missing_prompts: vec![AnswerKey::Goal],
    };
    let state = state_with(None, completeness, Vec::new());

    assert!(state.is_missing(&prompt("goal")));
    assert!(!state.is_missing(&prompt("blocked")));
    assert!(state.is_missing(&custom_prompt()));
    assert!(state.missing_debrief(4, 100));
    assert!(!state.missing_debrief(4, 200));
}

#[test]
fn a_custom_field_is_named_by_its_label() {
    assert!(matches!(field_label(&custom_prompt()), DisplayText::Literal(l) if l == "Mood"));
}
