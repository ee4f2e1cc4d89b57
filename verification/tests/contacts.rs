use pod_roster::contacts::{
    is_filtering, label_names, label_note, ContactColumns, ContactFilter, ContactSort, SortColumn, SortDirection,
};

fn labels(pairs: &[(i64, &str)]) -> std::collections::HashMap<i64, String> {
    pairs.iter().map(|(id, name)| (*id, (*name).to_owned())).collect()
}

#[test]
fn it_defaults_to_every_column_and_standings_only_hides_the_extras() {
    assert!(ContactColumns::default().labels);
    assert!(ContactColumns::default().watchlist);

    assert!(!ContactColumns::standings_only().labels);
    assert!(!ContactColumns::standings_only().watchlist);
}

#[test]
fn it_maps_each_facet_to_its_contact_type() {
    assert_eq!(ContactFilter::All.contact_type(), None);
    assert_eq!(ContactFilter::Character.contact_type(), Some("character"));
    assert_eq!(ContactFilter::Corp.contact_type(), Some("corporation"));
    assert_eq!(ContactFilter::Alliance.contact_type(), Some("alliance"));
}

#[test]
fn it_keeps_the_filter_segments_in_render_order() {
    assert_eq!(
        ContactFilter::segments(),
        [
            (ContactFilter::All, "roster.contacts.filter_all"),
            (ContactFilter::Character, "roster.contacts.filter_characters"),
            (ContactFilter::Corp, "roster.contacts.filter_corps"),
            (ContactFilter::Alliance, "roster.contacts.filter_alliances"),
        ]
    );
}

#[test]
fn it_counts_matches_only_while_filtering() {
    assert!(!is_filtering("", ContactFilter::All));
    assert!(!is_filtering("   ", ContactFilter::All));
    assert!(is_filtering("wing", ContactFilter::All));
    assert!(is_filtering("", ContactFilter::Corp));
}

#[test]
fn it_is_empty_for_no_labels_or_unknown_ids() {
    let labels = labels(&[(1, "Fleet")]);

    assert_eq!(label_note("[]", &labels), "");
    assert_eq!(label_note("[99]", &labels), "");
    assert_eq!(label_note("not-json", &labels), "");
}

#[test]
fn it_joins_resolved_label_names() {
    let labels = labels(&[(1, "Fleet"), (2, "Trusted")]);

    assert_eq!(label_note("[1,2]", &labels), "Fleet, Trusted");
    assert_eq!(label_note("[2, 99, 1]", &labels), "Trusted, Fleet");
    assert_eq!(label_names(&vec![2], &labels), "Trusted");
}

#[test]
fn it_defaults_to_strongest_standing_first() {
    assert_eq!(ContactSort::default().column, SortColumn::Standing);
    assert_eq!(ContactSort::default().direction, SortDirection::Descending);
}

#[test]
fn it_flips_direction_when_re_clicking_the_active_column() {
    let sort = ContactSort { column: SortColumn::Entity, direction: SortDirection::Ascending };

    let flipped = sort.toggled(SortColumn::Entity);
    assert_eq!(flipped.direction, SortDirection::Descending);

    let flipped_again = flipped.toggled(SortColumn::Entity);
    assert_eq!(flipped_again.direction, SortDirection::Ascending);
}

#[test]
fn it_marks_only_the_active_column_with_a_caret() {
    let sort = ContactSort { column: SortColumn::Standing, direction: SortDirection::Descending };

    assert_eq!(sort.caret(SortColumn::Standing), Some(SortDirection::Descending));
    assert!(sort.caret(SortColumn::Entity).is_none());
    assert!(sort.caret(SortColumn::Type).is_none());
}

#[test]
fn it_starts_a_fresh_column_on_its_natural_direction() {
    let sort = ContactSort::default().toggled(SortColumn::Entity);
    assert_eq!(sort.column, SortColumn::Entity);
    assert_eq!(sort.direction, SortDirection::Ascending);

    let sort = ContactSort::default().toggled(SortColumn::Type);
    assert_eq!(sort.direction, SortDirection::Ascending);
}
