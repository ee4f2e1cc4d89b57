use pod_roster::dossier::{format_remaining, update, Data, DossierOrder, EditTarget, Message, OrderStatus, PersistOp, State};

fn order(id: i64, text: &str) -> DossierOrder {
    DossierOrder {
        character_id: 90_000_001,
        created_at: "2026-07-09T00:00:00Z".to_owned(),
        id,
        objective_id: None,
        position: 0,
        status: "active".to_owned(),
        text: text.to_owned(),
        updated_at: "2026-07-09T00:00:00Z".to_owned(),
    }
}

#[test]
fn it_opens_and_cancels_an_inline_edit() {
    let mut state = State::default();

    update(&mut state, Message::StartEdit(EditTarget::Purpose));
    assert_eq!(state.editing(), Some(EditTarget::Purpose));

    update(&mut state, Message::DraftChanged("Anchor".to_owned()));
    assert_eq!(state.draft(), "Anchor");

    update(&mut state, Message::CancelEdit);
    assert_eq!(state.editing(), None);
    assert_eq!(state.draft(), "");
}

#[test]
fn it_seeds_the_draft_from_the_current_value_on_edit() {
    let mut state = State::default();
    let mut data = Data::empty();
    data.purpose = Some("Fleet anchor".to_owned());
    data.orders = vec![order(3, "Anchor the roam")];
    update(&mut state, Message::Reloaded(data));

    update(&mut state, Message::StartEdit(EditTarget::Purpose));
    assert_eq!(state.draft(), "Fleet anchor");

    update(&mut state, Message::StartEdit(EditTarget::Order(3)));
    assert_eq!(state.draft(), "Anchor the roam");

    update(&mut state, Message::StartEdit(EditTarget::NearTerm));
    assert_eq!(state.draft(), "");
}

#[test]
fn it_toggles_the_picker_and_archive() {
    let mut state = State::default();

    update(&mut state, Message::TogglePicker(7));
    assert_eq!(state.picker(), Some(7));
    update(&mut state, Message::TogglePicker(7));
    assert_eq!(state.picker(), None);

    update(&mut state, Message::ToggleArchive);
    assert!(state.show_archive());
}

#[test]
fn it_persists_a_brief_edit() {
    let mut state = State::default();
    let mut data = Data::empty();
    data.near_term = Some("Caldari Cruiser V".to_owned());
    update(&mut state, Message::Reloaded(data));
    update(&mut state, Message::StartEdit(EditTarget::Purpose));
    update(&mut state, Message::DraftChanged("  Fleet anchor ".to_owned()));

    let op = update(&mut state, Message::CommitEdit);

    assert!(matches!(
        op,
        Some(PersistOp::Brief { near_term: Some(n), purpose: Some(p) }) if n == "Caldari Cruiser V" && p == "Fleet anchor"
    ));
    assert_eq!(state.editing(), None);
}

#[test]
fn a_blank_brief_edit_clears_the_field() {
    let mut state = State::default();
    update(&mut state, Message::StartEdit(EditTarget::NearTerm));
    update(&mut state, Message::DraftChanged("   ".to_owned()));

    let op = update(&mut state, Message::CommitEdit);

    assert!(matches!(op, Some(PersistOp::Brief { near_term: None, purpose: None })));
}

#[test]
fn it_adds_edits_and_removes_an_order() {
    let mut state = State::default();

    assert!(matches!(update(&mut state, Message::AddOrder), Some(PersistOp::AddOrder)));

    update(&mut state, Message::StartEdit(EditTarget::Order(4)));
    update(&mut state, Message::DraftChanged("Anchor the roam".to_owned()));
    let op = update(&mut state, Message::CommitEdit);
    assert!(matches!(op, Some(PersistOp::EditOrder { id: 4, text }) if text == "Anchor the roam"));

    assert!(matches!(update(&mut state, Message::RemoveOrder(4)), Some(PersistOp::RemoveOrder(4))));
}

#[test]
fn it_transitions_order_status() {
    let mut state = State::default();

    let op = update(&mut state, Message::SetStatus { id: 4, status: OrderStatus::Complete });

    assert!(matches!(op, Some(PersistOp::SetStatus { id: 4, status: OrderStatus::Complete })));
}

#[test]
fn it_links_and_unlinks_an_objective() {
    let mut state = State::default();
    update(&mut state, Message::TogglePicker(4));

    let linked = update(&mut state, Message::PickObjective { objective: 9, order: 4 });
    assert!(matches!(linked, Some(PersistOp::SetObjective { id: 4, objective: 9 })));
    assert_eq!(state.picker(), None);

    let cleared = update(&mut state, Message::ClearObjective(4));
    assert!(matches!(cleared, Some(PersistOp::ClearObjective(4))));
}

#[test]
fn committing_without_an_open_editor_does_nothing() {
    let mut state = State::default();

    assert!(update(&mut state, Message::CommitEdit).is_none());
}

#[test]
fn the_time_left_reads_in_days_hours_or_minutes() {
    assert_eq!(format_remaining(0), None);
    assert_eq!(format_remaining(-5), None);
    assert_eq!(format_remaining(45).as_deref(), Some("45m"));
    assert_eq!(format_remaining(125).as_deref(), Some("2h 5m"));
    assert_eq!(format_remaining(3 * 1440 + 4 * 60 + 10).as_deref(), Some("3d 4h"));
}
