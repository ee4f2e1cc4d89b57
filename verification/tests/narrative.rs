use pod_roster::narrative::{update, Message, State};

fn authored() -> State {
    State::new(Some("One frigate saved a fleet.".to_owned()))
}

fn editing(mut state: State, draft: &str) -> State {
    update(&mut state, Message::WriteRequested);
    update(&mut state, Message::DraftChanged(draft.to_owned()));
    state
}

fn draft_value(text: &str) -> Option<String> {
    editing(State::new(None), text).draft_value()
}

#[test]
fn it_keeps_a_non_blank_narrative() {
    let state = State::new(Some("Clean roam.".to_owned()));

    assert!(state.has_text());
    assert_eq!(state.text().map(String::as_str), Some("Clean roam."));
}

#[test]
fn it_drops_a_blank_narrative() {
    let state = State::new(Some("   ".to_owned()));

    assert!(!state.has_text());
    assert_eq!(state.text(), None);
}

#[test]
fn it_enters_a_blank_draft_on_write() {
    let mut state = State::new(None);

    update(&mut state, Message::WriteRequested);

    assert!(state.is_editing());
    assert_eq!(state.draft(), "");
}

#[test]
fn it_seeds_the_draft_from_existing_text_on_edit() {
    let mut state = authored();

    update(&mut state, Message::EditRequested);

    assert!(state.is_editing());
    assert_eq!(state.draft(), "One frigate saved a fleet.");
}

#[test]
fn it_tracks_draft_edits() {
    let mut state = editing(State::new(None), "");

    update(&mut state, Message::DraftChanged("halfway".to_owned()));

    assert_eq!(state.draft(), "halfway");
}

#[test]
fn it_discards_the_draft_on_cancel() {
    let mut state = editing(authored(), "scratch");

    update(&mut state, Message::Cancelled);

    assert!(!state.is_editing());
    assert_eq!(state.draft(), "");
    assert_eq!(state.text().map(String::as_str), Some("One frigate saved a fleet."));
}

#[test]
fn it_installs_a_saved_narrative_and_leaves_edit_mode() {
    let mut state = editing(State::new(None), "Sold into strength.");

    update(&mut state, Message::Saved(Ok(Some("Sold into strength.".to_owned()))));

    assert!(!state.is_editing());
    assert_eq!(state.text().map(String::as_str), Some("Sold into strength."));
}

#[test]
fn it_clears_the_text_when_a_save_stores_nothing() {
    let mut state = editing(authored(), "");

    update(&mut state, Message::Saved(Ok(None)));

    assert!(!state.has_text());
    assert_eq!(state.text(), None);
}

#[test]
fn a_failed_narrative_save_keeps_the_editor_open() {
    let mut state = editing(authored(), "draft");

    update(&mut state, Message::Saved(Err("disk full".to_owned())));

    assert!(state.is_editing());
    assert_eq!(state.draft(), "draft");
    assert_eq!(state.text().map(String::as_str), Some("One frigate saved a fleet."));
}

#[test]
fn it_trims_authored_input() {
    assert_eq!(draft_value("  logged it  "), Some("logged it".to_owned()));
}

#[test]
fn it_maps_a_blank_draft_to_nothing() {
    assert_eq!(draft_value("   "), None);
    assert_eq!(draft_value(""), None);
}

#[test]
fn a_save_request_asks_to_store_the_trimmed_draft() {
    let mut state = editing(State::new(None), " Clean roam. ");

    assert_eq!(update(&mut state, Message::SaveRequested), Some(Some("Clean roam.".to_owned())));

    let mut blank = editing(State::new(None), "   ");
    assert_eq!(update(&mut blank, Message::SaveRequested), Some(None));
}

#[test]
fn a_stored_save_shows_the_trimmed_draft_and_closes_the_editor() {
    let mut state = editing(authored(), "  Held the line.  ");
    let value = update(&mut state, Message::SaveRequested).unwrap();

    update(&mut state, Message::Saved(Ok(value)));

    assert_eq!(state.text().map(String::as_str), Some("Held the line."));
    assert!(!state.is_editing());

    let mut cleared = editing(authored(), "   ");
    let value = update(&mut cleared, Message::SaveRequested).unwrap();
    update(&mut cleared, Message::Saved(Ok(value)));
    assert_eq!(cleared.text(), None);
    assert!(!cleared.is_editing());
}
