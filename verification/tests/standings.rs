use pod_roster::standings::{meta_line, AgentDetails, flatten_sections, is_other, FlatItem, StandingEntry, StandingKind, StandingsFilter};

fn row(kind: StandingKind, faction_id: Option<i64>) -> StandingEntry {
    StandingEntry { kind, faction_id }
}

fn catalog() -> Vec<StandingEntry> {
    vec![
        row(StandingKind::Faction, Some(500_001)),
        row(StandingKind::Corporation, Some(500_001)),
        row(StandingKind::Corporation, None),
        row(StandingKind::Agent, Some(500_001)),
        row(StandingKind::Agent, None),
    ]
}

fn matched(filter: StandingsFilter) -> usize {
    catalog().iter().filter(|row| filter.matches(row)).count()
}

fn labels(items: &[FlatItem]) -> Vec<&'static str> {
    items
        .iter()
        .filter_map(|item| match item {
            FlatItem::Header { label, .. } => Some(*label),
            FlatItem::Row { .. } => None,
        })
        .collect()
}

#[test]
fn it_keeps_only_the_other_bucket() {
    assert_eq!(matched(StandingsFilter::Other), 2);
}

#[test]
fn it_passes_everything_for_all() {
    assert_eq!(matched(StandingsFilter::All), 5);
}

#[test]
fn each_facet_keeps_its_own_kind_with_a_faction() {
    assert_eq!(matched(StandingsFilter::Factions), 1);
    assert_eq!(matched(StandingsFilter::Corps), 1);
    assert_eq!(matched(StandingsFilter::Agents), 1);
    assert!(!is_other(&row(StandingKind::Faction, None)));
    assert!(is_other(&row(StandingKind::Agent, None)));
}

#[test]
fn it_surfaces_agents_only_for_all_and_agents() {
    assert!(StandingsFilter::All.surfaces_agents());
    assert!(StandingsFilter::Agents.surfaces_agents());

    assert!(!StandingsFilter::Factions.surfaces_agents());
    assert!(!StandingsFilter::Corps.surfaces_agents());
    assert!(!StandingsFilter::Other.surfaces_agents());
}

#[test]
fn it_emits_a_header_then_its_rows_in_section_order() {
    let rows = vec![
        row(StandingKind::Agent, Some(500_001)),
        row(StandingKind::Faction, Some(500_001)),
        row(StandingKind::Corporation, Some(500_001)),
        row(StandingKind::Corporation, None),
    ];

    let items = flatten_sections(&rows, StandingsFilter::All);

    assert_eq!(
        labels(&items),
        [
            "roster.standings.section_factions",
            "roster.standings.section_corporations",
            "roster.standings.section_agents",
            "roster.standings.section_other",
        ]
    );
    assert_eq!(items.len(), 4 + 4, "one header per section plus every visible row");
    assert_eq!(items[0], FlatItem::Header { count: 1, label: "roster.standings.section_factions" });
    assert_eq!(items[1], FlatItem::Row { last: true, row: 1 });
    assert_eq!(items[5], FlatItem::Row { last: true, row: 0 });
}

#[test]
fn a_facet_leaves_out_the_sections_it_does_not_keep() {
    let items = flatten_sections(&catalog(), StandingsFilter::Other);

    assert_eq!(
        items,
        vec![
            FlatItem::Header { count: 2, label: "roster.standings.section_other" },
            FlatItem::Row { last: false, row: 2 },
            FlatItem::Row { last: true, row: 4 },
        ]
    );
    assert!(flatten_sections(&vec![], StandingsFilter::All).is_empty());
}

#[test]
fn it_keeps_the_facet_segments_in_render_order() {
    let keys: Vec<StandingsFilter> = StandingsFilter::segments().iter().map(|(f, _)| *f).collect();

    assert_eq!(
        keys,
        vec![
            StandingsFilter::All,
            StandingsFilter::Factions,
            StandingsFilter::Corps,
            StandingsFilter::Agents,
            StandingsFilter::Other
        ]
    );
}

fn details(level: Option<i64>, system: Option<&str>, region: Option<&str>) -> AgentDetails {
    AgentDetails {
        level,
        agent_type: Some("BasicAgent".to_owned()),
        division: Some("Security".to_owned()),
        system: system.map(str::to_owned),
        region: region.map(str::to_owned),
    }
}

#[test]
fn it_renders_a_plain_row_and_an_agent_row() {
    assert_eq!(meta_line(StandingKind::Corporation, &details(Some(4), Some("Jita"), None)), None);
    assert_eq!(
        meta_line(StandingKind::Agent, &details(Some(4), Some("Jita"), Some("The Forge"))).as_deref(),
        Some("L4  \u{b7}  BasicAgent  \u{b7}  Security  \u{b7}  Jita \u{b7} The Forge")
    );
    assert_eq!(
        meta_line(StandingKind::Agent, &details(None, None, Some("The Forge"))).as_deref(),
        Some("BasicAgent  \u{b7}  Security")
    );
    let nothing = AgentDetails { level: None, agent_type: None, division: None, system: None, region: Some("X".to_owned()) };
    assert_eq!(meta_line(StandingKind::Agent, &nothing), None);
}

#[test]
fn every_kept_row_shows_exactly_once() {
    let rows = catalog();
    for filter in [
        StandingsFilter::All,
        StandingsFilter::Factions,
        StandingsFilter::Corps,
        StandingsFilter::Agents,
        StandingsFilter::Other,
    ] {
        let items = flatten_sections(&rows, filter);
        for (i, entry) in rows.iter().enumerate() {
            let shown = items.iter().filter(|item| matches!(item, FlatItem::Row { row, .. } if *row == i)).count();
            assert_eq!(shown, if filter.matches(entry) { 1 } else { 0 });
        }
    }
}
