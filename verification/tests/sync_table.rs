use pod_roster::contact_sync::{ListModel, SyncListContact, State};
use pod_roster::contacts::{ContactFilter, ContactSort, SortColumn, SortDirection};
use pod_roster::sync_table::{contact_view_rows, listed_rows, sort_rows, SyncRow};

fn row(name: &str, kind: &str, standing: i64) -> SyncRow {
    SyncRow { entity_id: 1, name: name.to_owned(), entity_type: kind.to_owned(), standing }
}

fn names(rows: &[SyncRow]) -> Vec<&str> {
    rows.iter().map(|row| row.name.as_str()).collect()
}

fn sort(column: SortColumn, direction: SortDirection) -> ContactSort {
    ContactSort { column, direction }
}

fn contact(entity_id: i64, entity_type: &str, standing: i64) -> SyncListContact {
    SyncListContact { id: entity_id * 10, list_id: 1, entity_type: entity_type.to_owned(), entity_id, standing }
}

fn editing_state() -> State {
    let mut state = State::new();
    state.install(
        vec![ListModel {
            contacts: vec![contact(7, "character", -5), contact(8, "character", 10), contact(9, "alliance", 0)],
            id: 1,
            name: "Gankers".to_owned(),
            target_ids: Vec::new(),
        }],
        vec![(7, "Lazarus Drake".to_owned()), (8, "Vex Voronova".to_owned()), (9, "Iron Helix Pact".to_owned())],
    );
    state.open_editor(1);
    state
}

#[test]
fn it_sorts_rows_by_each_column_and_direction() {
    let rows = vec![row("beta", "corporation", -10), row("Alpha", "character", 10), row("gamma", "alliance", 0)];

    let rows = sort_rows(&rows, sort(SortColumn::Entity, SortDirection::Ascending));
    assert_eq!(names(&rows), ["Alpha", "beta", "gamma"]);

    let rows = sort_rows(&rows, sort(SortColumn::Entity, SortDirection::Descending));
    assert_eq!(names(&rows), ["gamma", "beta", "Alpha"]);

    let rows = sort_rows(&rows, sort(SortColumn::Standing, SortDirection::Descending));
    assert_eq!(names(&rows), ["Alpha", "gamma", "beta"]);

    let rows = sort_rows(&rows, sort(SortColumn::Type, SortDirection::Ascending));
    assert_eq!(names(&rows), ["gamma", "Alpha", "beta"]);
}

#[test]
fn rows_with_equal_keys_keep_their_order_in_both_directions() {
    let rows = vec![row("a", "character", 5), row("b", "alliance", 5), row("c", "character", 1), row("d", "character", 5)];

    let up = sort_rows(&rows, sort(SortColumn::Standing, SortDirection::Ascending));
    assert_eq!(names(&up), ["c", "a", "b", "d"]);

    let down = sort_rows(&rows, sort(SortColumn::Standing, SortDirection::Descending));
    assert_eq!(names(&down), ["a", "b", "d", "c"]);

    let by_type = sort_rows(&rows, sort(SortColumn::Type, SortDirection::Descending));
    assert_eq!(names(&by_type), ["a", "c", "d", "b"]);
}

#[test]
fn it_filters_and_sorts_the_table_from_reused_messages() {
    let state = editing_state();
    let default_sort = ContactSort::default();

    assert_eq!(contact_view_rows(&state, "laz", ContactFilter::All, default_sort).len(), 1);
    assert_eq!(contact_view_rows(&state, "  LAZ ", ContactFilter::All, default_sort).len(), 1);
    assert!(contact_view_rows(&state, "zzz", ContactFilter::All, default_sort).is_empty());
    assert!(contact_view_rows(&state, "", ContactFilter::Corp, default_sort).is_empty(), "no corporations in the list");

    let all = contact_view_rows(&state, "", ContactFilter::All, default_sort);
    assert_eq!(names(&all), ["Vex Voronova", "Iron Helix Pact", "Lazarus Drake"]);

    let by_name = contact_view_rows(&state, "", ContactFilter::Character, sort(SortColumn::Entity, SortDirection::Ascending));
    assert_eq!(names(&by_name), ["Lazarus Drake", "Vex Voronova"]);
}

#[test]
fn the_table_is_empty_without_an_open_list() {
    let mut state = editing_state();
    state.close_editor();

    assert!(contact_view_rows(&state, "", ContactFilter::All, ContactSort::default()).is_empty());
}

#[test]
fn an_unknown_entity_is_listed_by_its_id() {
    let mut state = State::new();
    state.install(Vec::new(), Vec::new());
    let contacts = vec![contact(43, "character", 1)];

    let rows = listed_rows(&state, &contacts, "", ContactFilter::All);

    assert_eq!(names(&rows), ["#43"]);
    assert_eq!(listed_rows(&state, &contacts, "#4", ContactFilter::All).len(), 1);
    assert!(listed_rows(&state, &contacts, "x", ContactFilter::All).is_empty());
}
