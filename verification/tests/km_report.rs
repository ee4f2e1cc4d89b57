use pod_roster::km_report::{logged_stamp, stamp_or_raw, update, Message, Outcome, SavedReport, State};
use pod_roster::log_model::KillmailReport;

fn seeded_state(is_kill: bool) -> State {
    State::new(42, 100, is_kill)
}

fn stored(happened: &str, outcome: &str) -> KillmailReport {
    KillmailReport {
        character_id: 42,
        created_at: "2026-07-06T00:00:00Z".to_owned(),
        different: None,
        happened: happened.to_owned(),
        killmail_id: 100,
        outcome: outcome.to_owned(),
        takeaway: Some("Bring a scout.".to_owned()),
        updated_at: "2026-07-06T01:00:00Z".to_owned(),
    }
}

#[test]
fn it_rejects_a_blank_what_happened() {
    let mut state = seeded_state(true);
    update(&mut state, Message::HappenedEdited("   \n ".to_owned()));

    assert!(state.build_input().is_none());
    assert!(!state.can_save());
}

#[test]
fn it_trims_fields_and_drops_empty_optionals() {
    let mut state = seeded_state(false);
    update(&mut state, Message::OutcomeSelected(Outcome::Learning));
    update(&mut state, Message::HappenedEdited("  Lost the tackle.  ".to_owned()));
    update(&mut state, Message::DifferentEdited("   ".to_owned()));
    update(&mut state, Message::TakeawayEdited("  Warp sooner.  ".to_owned()));

    let input = state.build_input().expect("a valid report");

    assert_eq!(input.outcome, "learning");
    assert_eq!(input.happened, "Lost the tackle.");
    assert_eq!(input.different, None);
    assert_eq!(input.takeaway.as_deref(), Some("Warp sooner."));
}

#[test]
fn it_round_trips_every_variant_through_the_db_string() {
    for outcome in Outcome::ORDER {
        assert_eq!(Outcome::from_db(outcome.as_str()), outcome);
    }
}

#[test]
fn it_falls_back_to_clean_for_an_unknown_string() {
    assert_eq!(Outcome::from_db("mystery"), Outcome::Clean);
    assert_eq!(Outcome::default(), Outcome::Clean);
}

#[test]
fn it_defaults_by_kind() {
    assert_eq!(seeded_state(true).outcome(), Outcome::Clean);
    assert_eq!(seeded_state(false).outcome(), Outcome::Costly);
}

#[test]
fn it_saves_the_form_and_reloads_it_into_a_fresh_state() {
    let mut editor = State::new(42, 100, false);
    update(&mut editor, Message::OutcomeSelected(Outcome::Learning));
    update(&mut editor, Message::HappenedEdited("Reshipped and won.".to_owned()));
    update(&mut editor, Message::TakeawayEdited("Bring a scout.".to_owned()));
    let input = update(&mut editor, Message::SaveRequested("2026-07-06T01:00:00Z".to_owned())).expect("valid report");
    assert!(!editor.is_editing());
    assert_eq!(editor.saved().map(|s| s.happened.as_str()), Some("Reshipped and won."));

    let reloaded = KillmailReport {
        different: input.different.clone(),
        takeaway: input.takeaway.clone(),
        ..stored(&input.happened, &input.outcome)
    };
    let mut fresh = State::new(42, 100, false);
    fresh.apply_loaded(Some(reloaded));

    let saved = fresh.saved().expect("a persisted report");
    assert_eq!(saved.outcome, Outcome::Learning);
    assert_eq!(saved.happened, "Reshipped and won.");
    assert_eq!(saved.takeaway.as_deref(), Some("Bring a scout."));
    assert!(!fresh.is_editing());
    assert!(fresh.shows_saved());
}

#[test]
fn a_blank_save_changes_nothing() {
    let mut state = seeded_state(true);

    let input = update(&mut state, Message::SaveRequested("2026-07-06T01:00:00Z".to_owned()));

    assert!(input.is_none());
    assert!(state.is_editing());
    assert!(state.saved().is_none());
}

#[test]
fn a_load_that_finds_nothing_opens_the_form() {
    let mut state = seeded_state(true);

    update(&mut state, Message::Loaded(None));

    assert!(state.is_editing());
    assert!(state.saved().is_none());
}

#[test]
fn editing_a_saved_report_starts_from_it_and_cancel_returns_to_it() {
    let mut state = seeded_state(true);
    update(&mut state, Message::Loaded(Some(stored("Held the pipe at Tama.", "costly"))));

    update(&mut state, Message::EditRequested);
    assert!(state.is_editing());
    let input = state.build_input().expect("the stored report fills the form");
    assert_eq!(input.happened, "Held the pipe at Tama.");
    assert_eq!(input.outcome, "costly");

    update(&mut state, Message::Cancelled);
    assert!(!state.is_editing());
}

#[test]
fn a_saved_report_keeps_the_model_fields() {
    let saved = SavedReport::from_model(&stored("Held the pipe at Tama.", "unknown"));

    assert_eq!(saved.outcome, Outcome::Clean);
    assert_eq!(saved.happened, "Held the pipe at Tama.");
    assert_eq!(saved.updated_at, "2026-07-06T01:00:00Z");
}

#[test]
fn it_stamps_a_saved_time_and_keeps_an_unreadable_one() {
    assert_eq!(logged_stamp("2026-07-06T13:05:00Z"), "6 Jul · 01:05 PM");
    assert_eq!(logged_stamp("yesterday"), "yesterday");
    assert_eq!(stamp_or_raw(None, "raw"), "raw");
    assert_eq!(stamp_or_raw(Some("6 Jul".to_owned()), "raw"), "6 Jul");
}
