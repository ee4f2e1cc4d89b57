use pod_roster::entity_search::{
    ids_to_resolve, is_searchable, results_from_names, EntityCategory, ImageKind, NameRecord, SearchBuckets,
    MAX_RESULTS, SEARCH_MIN_CHARS,
};

fn record(id: i64, name: &str, category: &str) -> NameRecord {
    NameRecord { id, category: category.to_owned(), name: name.to_owned() }
}

fn buckets() -> SearchBuckets {
    SearchBuckets { alliance: vec![], character: vec![], corporation: vec![], solar_system: vec![], station: vec![] }
}

#[test]
fn it_maps_each_category_to_its_image_kind() {
    assert_eq!(EntityCategory::Alliance.image_kind(), Some(ImageKind::AllianceLogo));
    assert_eq!(EntityCategory::Character.image_kind(), Some(ImageKind::CharacterPortrait));
    assert_eq!(EntityCategory::Corporation.image_kind(), Some(ImageKind::CorporationLogo));
}

#[test]
fn it_has_no_image_kind_for_location_categories() {
    assert_eq!(EntityCategory::SolarSystem.image_kind(), None);
    assert_eq!(EntityCategory::Station.image_kind(), None);
}

#[test]
fn it_maps_each_category_to_its_label() {
    assert_eq!(EntityCategory::Alliance.label(), "Alliance");
    assert_eq!(EntityCategory::Character.label(), "Character");
    assert_eq!(EntityCategory::Corporation.label(), "Corporation");
    assert_eq!(EntityCategory::SolarSystem.label(), "Solar System");
    assert_eq!(EntityCategory::Station.label(), "Station");
    assert_eq!(EntityCategory::SolarSystem.to_string(), "Solar System");
}

#[test]
fn it_rejects_unsupported_esi_categories() {
    assert_eq!(EntityCategory::from_esi("structure"), None);
    assert_eq!(EntityCategory::from_esi(""), None);
}

#[test]
fn it_round_trips_through_the_esi_category_string() {
    for category in [
        EntityCategory::Alliance,
        EntityCategory::Character,
        EntityCategory::Corporation,
        EntityCategory::SolarSystem,
        EntityCategory::Station,
    ] {
        assert_eq!(EntityCategory::from_esi(category.esi_category()), Some(category));
    }
}

#[test]
fn it_yields_nothing_below_the_min_chars_threshold() {
    assert_eq!(SEARCH_MIN_CHARS, 3);
    assert!(!is_searchable("Ve", &vec![EntityCategory::Character]));
    assert!(!is_searchable("  Ve  ", &vec![EntityCategory::Character]));
    assert!(is_searchable("Vex", &vec![EntityCategory::Character]));
    assert!(!is_searchable("Vex", &vec![]));
}

#[test]
fn it_passes_through_only_the_requested_categories() {
    let results = results_from_names(
        vec![record(95, "Vex Voronova", "character"), record(96, "Vex Holdings", "corporation")],
        &vec![EntityCategory::Character],
    );

    assert_eq!(results.len(), 1);
    assert_eq!(results[0].category, EntityCategory::Character);
    assert_eq!(results[0].id, 95);
}

#[test]
fn it_resolves_results_across_the_caller_specified_categories_with_their_category() {
    let categories = vec![EntityCategory::Character, EntityCategory::Corporation];
    let mut found = buckets();
    found.character = vec![95];
    found.corporation = vec![96];
    assert_eq!(ids_to_resolve(&found, &categories), vec![95, 96]);

    let results = results_from_names(
        vec![record(95, "Vex Voronova", "character"), record(96, "Vex Holdings", "corporation")],
        &categories,
    );

    let seen: Vec<(EntityCategory, i64, &str)> = results.iter().map(|r| (r.category, r.id, r.name.as_str())).collect();
    assert_eq!(
        seen,
        vec![(EntityCategory::Character, 95, "Vex Voronova"), (EntityCategory::Corporation, 96, "Vex Holdings")]
    );
}

#[test]
fn it_resolves_location_categories_without_fetching_portraits() {
    let categories = vec![EntityCategory::SolarSystem, EntityCategory::Station];
    let results = results_from_names(
        vec![
            record(30_000_142, "Jita", "solar_system"),
            record(60_003_760, "Jita IV - Moon 4 - Caldari Navy Assembly Plant", "station"),
            record(1, "Unknown", "inventory_type"),
        ],
        &categories,
    );

    assert_eq!(results.len(), 2);
    assert!(results.iter().all(|r| r.category.image_kind().is_none()));
}

#[test]
fn the_ids_follow_the_category_order_and_stop_at_the_cap() {
    let mut found = buckets();
    found.station = (100..110).collect();
    found.alliance = (1..20).collect();

    let ids = ids_to_resolve(&found, &vec![EntityCategory::Station, EntityCategory::Alliance]);

    assert_eq!(ids.len(), MAX_RESULTS);
    assert_eq!(ids[0], 100);
    assert_eq!(ids[9], 109);
    assert_eq!(ids[10], 1);
    assert_eq!(ids[19], 10);
}
