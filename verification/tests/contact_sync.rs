use pod_roster::contact_sync::{
    entity_type_str, image_kind, list_title, pilot_subtitle, update, update_contacts, ContactsMessage, Effect,
    EntityKind, ListModel, Message, PickedContact, SyncListContact, State,
};
use pod_roster::contacts::{ContactFilter, ContactSort, SortColumn, SortDirection};
use pod_roster::entity_search::ImageKind;

fn list_model(id: i64, name: &str, contacts: Vec<SyncListContact>, target_ids: Vec<i64>) -> ListModel {
    ListModel { contacts, id, name: name.to_owned(), target_ids }
}

fn contact(id: i64, list_id: i64, entity_id: i64, standing: i64) -> SyncListContact {
    SyncListContact { id, list_id, entity_type: "character".to_owned(), entity_id, standing }
}

fn with_lists(lists: Vec<ListModel>) -> State {
    let mut state = State::new();
    state.install(lists, Vec::new());
    state
}

#[test]
fn it_opens_the_editor_for_a_created_list() {
    let mut state = State::new();

    state.list_created(7, "Gankers".to_owned());

    assert_eq!(state.editing(), state.lists().first().map(|list| list.id));
    assert_eq!(state.lists()[0].name, "Gankers");
    assert_eq!(state.editing_list().map(|list| list.id), Some(7));
}

#[test]
fn it_renames_the_editing_list_in_memory() {
    let mut state = with_lists(vec![list_model(1, "Old", Vec::new(), Vec::new())]);
    state.open_editor(1);

    let stored = state.rename_editing("New".to_owned());

    assert_eq!(state.lists()[0].name, "New");
    assert_eq!(stored, Some((1, "New".to_owned())));
}

#[test]
fn renaming_without_an_open_list_changes_nothing() {
    let mut state = with_lists(vec![list_model(1, "Old", Vec::new(), Vec::new())]);

    assert_eq!(state.rename_editing("New".to_owned()), None);
    assert_eq!(state.lists()[0].name, "Old");
}

#[test]
fn it_toggles_targets_in_memory() {
    let mut state = with_lists(vec![list_model(1, "Blues", Vec::new(), Vec::new())]);
    state.open_editor(1);

    let stored = state.toggle_target(42);
    assert_eq!(state.lists()[0].target_ids, vec![42]);
    assert_eq!(stored, Some((1, vec![42])));

    state.toggle_target(42);
    assert!(state.lists()[0].target_ids.is_empty());
}

#[test]
fn it_removes_a_deleted_list_and_closes_its_editor() {
    let mut state = with_lists(vec![list_model(1, "Blues", Vec::new(), Vec::new())]);
    state.open_editor(1);

    state.request_list_delete(1);
    let deleted = state.confirm_list_delete();

    assert_eq!(deleted, Some(1));
    assert!(state.lists().is_empty());
    assert_eq!(state.editing(), None);
    assert_eq!(state.list_delete(), None);
}

#[test]
fn it_cancels_a_pending_list_delete() {
    let mut state = with_lists(vec![list_model(1, "Blues", Vec::new(), Vec::new())]);

    state.request_list_delete(1);
    state.cancel_list_delete();

    assert_eq!(state.list_delete(), None);
    assert_eq!(state.lists().len(), 1);
}

#[test]
fn it_installs_a_loaded_snapshot() {
    let mut state = State::new();

    state.install(vec![list_model(1, "Blues", Vec::new(), vec![42])], vec![(42, "Pilot".to_owned())]);

    assert_eq!(state.lists().len(), 1);
    assert_eq!(state.entity_name(42), "Pilot");
    assert_eq!(state.entity_name(43), "#43");
}

#[test]
fn it_upserts_an_added_contact_and_refreshes_the_table() {
    let mut state = with_lists(vec![list_model(1, "Gankers", vec![contact(10, 1, 7, -5)], Vec::new())]);

    state.contact_added(contact(10, 1, 7, 10));
    assert_eq!(state.lists()[0].contacts.len(), 1);
    assert_eq!(state.lists()[0].contacts[0].standing, 10);

    state.contact_added(contact(11, 1, 8, 5));
    assert_eq!(state.lists()[0].contacts.len(), 2);
    assert_eq!(state.lists()[0].contacts[1].entity_id, 8);

    state.contact_added(contact(12, 99, 9, 5));
    assert_eq!(state.lists()[0].contacts.len(), 2);
}

#[test]
fn it_deletes_a_contact_through_the_reused_confirm() {
    let mut state = with_lists(vec![list_model(1, "Gankers", vec![contact(10, 1, 7, -5), contact(11, 1, 8, 5)], Vec::new())]);
    state.open_editor(1);

    assert_eq!(state.remove_contact("character", 7), Some(10));
    assert_eq!(state.lists()[0].contacts.len(), 1);
    assert_eq!(state.remove_contact("character", 7), None);
    assert_eq!(state.remove_contact("alliance", 8), None);
}

#[test]
fn it_remembers_a_picked_entitys_name() {
    let mut state = State::new();

    state.remember_name(95, "Vex Voronova".to_owned());

    assert_eq!(state.entity_name(95), "Vex Voronova");
}

#[test]
fn it_maps_entity_kinds_and_image_kinds() {
    assert_eq!(entity_type_str(EntityKind::Alliance), "alliance");
    assert_eq!(entity_type_str(EntityKind::Corporation), "corporation");
    assert_eq!(entity_type_str(EntityKind::Character), "character");
    assert_eq!(entity_type_str(EntityKind::Station), "character");

    assert_eq!(image_kind("alliance"), ImageKind::AllianceLogo);
    assert_eq!(image_kind("corporation"), ImageKind::CorporationLogo);
    assert_eq!(image_kind("character"), ImageKind::CharacterPortrait);
}

#[test]
fn a_pilot_reads_its_first_three_tags_else_its_corporation() {
    let tags: Vec<String> = ["Miner", "Hauler", "Scout", "Cyno"].iter().map(|t| (*t).to_owned()).collect();

    assert_eq!(pilot_subtitle(&tags, "Test Corp".to_owned()), "Miner \u{b7} Hauler \u{b7} Scout");
    assert_eq!(pilot_subtitle(&Vec::new(), "Test Corp".to_owned()), "Test Corp");
}

#[test]
fn a_blank_list_name_reads_as_untitled() {
    assert_eq!(list_title("  "), None);
    assert_eq!(list_title("Blues"), Some("Blues".to_owned()));
}

#[test]
fn the_screen_asks_to_store_renames_and_targets_of_the_open_list() {
    let mut state = State::new();
    let loaded = update(
        &mut state,
        Message::Loaded(vec![list_model(3, "Reds", Vec::new(), vec![9])], vec![(9, "Pilot".to_owned())]),
    );
    assert!(matches!(loaded, Effect::Nothing));

    assert!(matches!(update(&mut state, Message::NameChanged("Blues".to_owned())), Effect::Nothing));
    assert_eq!(state.lists()[0].name, "Reds");

    let _ = update(&mut state, Message::ListOpened(3));
    let renamed = update(&mut state, Message::NameChanged("Blues".to_owned()));
    assert!(matches!(renamed, Effect::RenameList { id: 3, name } if name == "Blues"));

    let toggled = update(&mut state, Message::TargetToggled(9));
    assert!(matches!(toggled, Effect::SetTargets { id: 3, targets } if targets.is_empty()));
    assert!(state.lists()[0].target_ids.is_empty());

    let _ = update(&mut state, Message::EditorClosed);
    assert_eq!(state.editing(), None);
}

#[test]
fn the_screen_deletes_a_list_only_once_confirmed() {
    let mut state = with_lists(vec![list_model(1, "A", Vec::new(), Vec::new()), list_model(2, "B", Vec::new(), Vec::new())]);

    assert!(matches!(update(&mut state, Message::ListDeleteConfirmed), Effect::Nothing));
    assert_eq!(state.lists().len(), 2);

    let _ = update(&mut state, Message::ListDeleteRequested(2));
    let _ = update(&mut state, Message::ListDeleteCancelled);
    assert!(matches!(update(&mut state, Message::ListDeleteConfirmed), Effect::Nothing));

    let _ = update(&mut state, Message::ListDeleteRequested(1));
    assert!(matches!(update(&mut state, Message::ListDeleteConfirmed), Effect::DeleteList(1)));
    assert_eq!(state.lists().len(), 1);
    assert_eq!(state.lists()[0].id, 2);
}

#[test]
fn the_screen_keeps_created_lists_and_stored_contacts() {
    let mut state = State::new();

    assert!(matches!(update(&mut state, Message::CreateList), Effect::CreateList));
    assert!(state.lists().is_empty());

    let _ = update(&mut state, Message::ListCreated(Err("disk full".to_owned())));
    assert!(state.lists().is_empty());

    let _ = update(&mut state, Message::ListCreated(Ok((5, "New list".to_owned()))));
    assert_eq!(state.editing(), Some(5));

    let _ = update(&mut state, Message::ContactAdded(Ok(contact(11, 5, 900, 10))));
    let _ = update(&mut state, Message::ContactAdded(Ok(contact(11, 5, 900, -5))));
    assert_eq!(state.lists()[0].contacts.len(), 1);
    assert_eq!(state.lists()[0].contacts[0].standing, -5);

    assert!(matches!(update(&mut state, Message::Persisted(Err("locked".to_owned()))), Effect::Nothing));
    assert!(matches!(update(&mut state, Message::Exit), Effect::Nothing));
    assert_eq!(state.lists().len(), 1);
}

#[test]
fn deleting_a_just_created_list_gives_back_the_lists() {
    let mut state = with_lists(vec![list_model(1, "A", Vec::new(), Vec::new())]);

    let _ = update(&mut state, Message::ListCreated(Ok((8, "Scratch".to_owned()))));
    let _ = update(&mut state, Message::ListDeleteRequested(8));
    assert!(matches!(update(&mut state, Message::ListDeleteConfirmed), Effect::DeleteList(8)));

    assert_eq!(state.lists().len(), 1);
    assert_eq!(state.lists()[0].id, 1);
    assert_eq!(state.editing(), None);
    assert_eq!(state.list_delete(), None);
}

#[test]
fn the_table_deletes_a_contact_only_once_confirmed() {
    let mut state = with_lists(vec![list_model(1, "Reds", vec![contact(31, 1, 500, -10), contact(32, 1, 600, 5)], Vec::new())]);
    state.open_editor(1);

    assert!(matches!(update_contacts(&mut state, ContactsMessage::DeleteConfirmed), Effect::Nothing));
    let _ = update_contacts(
        &mut state,
        ContactsMessage::DeleteRequested { entity_type: "character".to_owned(), entity_id: 600 },
    );
    assert!(state.contact_delete().is_some());
    let _ = update_contacts(&mut state, ContactsMessage::DeleteCancelled);
    assert!(state.contact_delete().is_none());

    let _ = update_contacts(
        &mut state,
        ContactsMessage::DeleteRequested { entity_type: "character".to_owned(), entity_id: 600 },
    );
    assert!(matches!(update_contacts(&mut state, ContactsMessage::DeleteConfirmed), Effect::RemoveContact(32)));
    assert!(state.contact_delete().is_none());
    assert_eq!(state.lists()[0].contacts.len(), 1);
    assert_eq!(state.lists()[0].contacts[0].entity_id, 500);
}

#[test]
fn the_add_dialog_leaves_out_the_lists_contacts_and_stores_the_pick() {
    let mut state = State::new();
    state.install(
        vec![list_model(4, "Blues", vec![contact(1, 4, 77, 10), contact(2, 4, 88, 5)], Vec::new())],
        vec![(77, "Known Pilot".to_owned())],
    );
    state.open_editor(4);

    let _ = update_contacts(&mut state, ContactsMessage::AddOpened);
    let modal = state.contact_modal().expect("the dialog opens");
    assert_eq!(modal.exclude, vec!["Known Pilot".to_owned(), "#88".to_owned()]);
    assert!(modal.picked.is_none());

    let pick = PickedContact { entity_id: 99000001, kind: EntityKind::Alliance, name: "Goons".to_owned(), standing: -10 };
    let _ = update_contacts(&mut state, ContactsMessage::Picked(pick));
    let stored = update_contacts(&mut state, ContactsMessage::ModalSubmitted);

    assert!(matches!(
        stored,
        Effect::AddContact { list_id: 4, entity_type, entity_id: 99000001, standing: -10 } if entity_type == "alliance"
    ));
    assert!(state.contact_modal().is_none());
    assert_eq!(state.entity_name(99000001), "Goons");
}

#[test]
fn submitting_without_a_pick_only_closes_the_dialog() {
    let mut state = with_lists(vec![list_model(4, "Blues", Vec::new(), Vec::new())]);
    state.open_editor(4);
    let _ = update_contacts(&mut state, ContactsMessage::AddOpened);

    assert!(matches!(update_contacts(&mut state, ContactsMessage::ModalSubmitted), Effect::Nothing));
    assert!(state.contact_modal().is_none());
}

#[test]
fn the_table_filters_sorts_and_searches_and_opening_a_list_resets_them() {
    let mut state = with_lists(vec![list_model(1, "A", Vec::new(), Vec::new()), list_model(2, "B", Vec::new(), Vec::new())]);
    state.open_editor(1);
    let by_name = ContactSort { column: SortColumn::Entity, direction: SortDirection::Ascending };

    let _ = update_contacts(&mut state, ContactsMessage::FilterChanged(ContactFilter::Corp));
    let _ = update_contacts(&mut state, ContactsMessage::SortChanged(by_name));
    let _ = update_contacts(&mut state, ContactsMessage::SearchChanged("gal".to_owned()));
    assert_eq!(state.contact_filter(), ContactFilter::Corp);
    assert_eq!(state.contact_sort(), by_name);
    assert_eq!(state.contacts_query(), "gal");

    let _ = update_contacts(&mut state, ContactsMessage::SearchCleared);
    assert_eq!(state.contacts_query(), "");

    let _ = update_contacts(&mut state, ContactsMessage::SearchChanged("gal".to_owned()));
    let _ = update(&mut state, Message::ListOpened(2));
    assert_eq!(state.contact_filter(), ContactFilter::All);
    assert_eq!(state.contact_sort(), ContactSort::default());
    assert_eq!(state.contacts_query(), "");
}

#[test]
fn closing_the_editor_drops_the_dialog_and_the_pending_delete() {
    let mut state = with_lists(vec![list_model(1, "A", vec![contact(5, 1, 500, 0)], Vec::new())]);
    state.open_editor(1);
    let _ = update_contacts(&mut state, ContactsMessage::AddOpened);
    let _ = update_contacts(
        &mut state,
        ContactsMessage::DeleteRequested { entity_type: "character".to_owned(), entity_id: 500 },
    );

    let _ = update(&mut state, Message::EditorClosed);

    assert!(state.contact_modal().is_none());
    assert!(state.contact_delete().is_none());
}
