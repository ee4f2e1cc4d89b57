use pod_roster::character_tabs::{enabled_tabs, has_feature, resolve_first_tab, Tab};
use pod_roster::corporation_tabs;
use pod_roster::features::Feature;
use pod_roster::scopes;

#[test]
fn it_drops_gated_tabs_whose_feature_is_disabled() {
    let tabs = enabled_tabs(&vec![Feature::Standings]);

    assert_eq!(tabs, vec![Tab::Standings]);
}

#[test]
fn it_keeps_strip_order_with_all_features_enabled() {
    let tabs = enabled_tabs(&Feature::ALL.to_vec());

    assert_eq!(tabs, vec![Tab::Clones, Tab::Contacts, Tab::Killlog, Tab::Notifications, Tab::Standings]);
}

#[test]
fn it_keeps_strip_order_whatever_order_the_features_come_in() {
    let tabs = enabled_tabs(&vec![Feature::Standings, Feature::Mail, Feature::Clones]);

    assert_eq!(tabs, vec![Tab::Clones, Tab::Standings]);
}

#[test]
fn it_leaves_no_tabs_with_no_features() {
    assert_eq!(enabled_tabs(&vec![]), Vec::<Tab>::new());
}

#[test]
fn it_drops_the_write_scope_so_the_forbidden_wall_only_gates_reads() {
    assert_eq!(Tab::Contacts.read_scopes(), vec![scopes::CHARACTER_CONTACTS]);
}

#[test]
fn it_keeps_read_only_tabs_unchanged() {
    assert_eq!(Tab::Standings.read_scopes(), vec![scopes::CHARACTER_STANDINGS]);
}

#[test]
fn every_tab_requires_at_least_one_scope() {
    for tab in Tab::ORDER {
        assert!(!tab.required_scopes().is_empty(), "{:?} must gate on a scope", tab.label_key());
    }
}

#[test]
fn it_maps_each_gated_tab_to_its_esi_scope() {
    assert_eq!(Tab::Clones.required_scopes(), vec![scopes::CHARACTER_CLONES]);
    assert_eq!(Tab::Contacts.required_scopes(), vec![scopes::CHARACTER_CONTACTS, scopes::CHARACTER_CONTACTS_WRITE]);
    assert_eq!(Tab::Killlog.required_scopes(), vec![scopes::CHARACTER_KILLMAILS]);
    assert_eq!(Tab::Notifications.required_scopes(), vec![scopes::CHARACTER_NOTIFICATIONS]);
    assert_eq!(Tab::Standings.required_scopes(), vec![scopes::CHARACTER_STANDINGS]);
}

#[test]
fn it_falls_back_to_clones_for_an_empty_list() {
    assert_eq!(resolve_first_tab(&vec![]), Tab::Clones);
}

#[test]
fn it_picks_clones_first_when_all_enabled() {
    assert_eq!(resolve_first_tab(&enabled_tabs(&Feature::ALL.to_vec())), Tab::Clones);
}

#[test]
fn it_picks_the_first_enabled_gated_tab() {
    assert_eq!(resolve_first_tab(&enabled_tabs(&vec![Feature::Standings])), Tab::Standings);
}

#[test]
fn each_tab_names_its_feature_and_title() {
    assert_eq!(Tab::Killlog.feature(), Feature::Killmails);
    assert_eq!(Tab::Killlog.label_key(), "roster.tabs.killlog");
    assert!(has_feature(&vec![Feature::Mail, Feature::Killmails], Feature::Killmails));
    assert!(!has_feature(&vec![Feature::Mail], Feature::Killmails));
}

#[test]
fn it_renders_in_order() {
    let keys: Vec<&str> = corporation_tabs::Tab::ORDER.iter().map(|tab| tab.label_key()).collect();

    assert_eq!(
        keys,
        vec!["roster.corporation.tab_contacts", "roster.corporation.tab_killlog", "roster.corporation.tab_standings"]
    );
}
