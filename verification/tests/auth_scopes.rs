use pod_roster::auth::{corp_scopes_for, scopes_for};
use pod_roster::features::{Feature, FeatureFlags, SubFeature};
use pod_roster::scopes;

fn flags_with(features: &[Feature]) -> FeatureFlags {
    let mut flags = FeatureFlags::default();
    for feature in Feature::ALL {
        flags.set_enabled(feature, features.contains(&feature));
    }
    flags
}

fn flags_all() -> FeatureFlags {
    FeatureFlags::default()
}

fn flags_none() -> FeatureFlags {
    flags_with(&[])
}

#[test]
fn it_always_requests_the_baseline_companions() {
    let requested = corp_scopes_for(&flags_none());

    assert!(requested.contains(&scopes::CORPORATION_DIVISIONS));
    assert!(requested.contains(&scopes::CORPORATION_MEMBERS));
    assert!(requested.contains(&scopes::CORPORATION_ROLES));
}

#[test]
fn it_derives_corp_asset_and_wallet_scopes_from_their_features() {
    let requested = corp_scopes_for(&flags_with(&[Feature::AssetTracking, Feature::Wallet]));

    assert!(requested.contains(&scopes::CORPORATION_ASSETS));
    assert!(requested.contains(&scopes::CORPORATION_WALLET));
}

#[test]
fn it_derives_corp_contracts_when_wallet_is_enabled() {
    let requested = corp_scopes_for(&flags_with(&[Feature::Wallet]));

    assert!(
        requested.contains(&scopes::CORPORATION_CONTRACTS),
        "an enabled Wallet feature must request the corp contracts scope, got {requested:?}"
    );
}

#[test]
fn it_derives_corp_industry_jobs_when_industry_is_enabled() {
    let requested = corp_scopes_for(&flags_with(&[Feature::Industry]));

    assert!(
        requested.contains(&scopes::CORPORATION_INDUSTRY_JOBS),
        "an enabled Industry feature must request the corp industry jobs scope, got {requested:?}"
    );
}

#[test]
fn it_derives_corp_mining_extractions_when_industry_is_enabled() {
    let requested = corp_scopes_for(&flags_with(&[Feature::Industry]));

    assert!(
        requested.contains(&scopes::CORPORATION_MINING_EXTRACTIONS),
        "an enabled Industry feature must request the corp mining extractions scope, got {requested:?}"
    );
}

#[test]
fn it_omits_a_disabled_features_corp_scope() {
    let without_industry = corp_scopes_for(&flags_with(&[Feature::Wallet]));

    assert!(!without_industry.contains(&scopes::CORPORATION_INDUSTRY_JOBS));
}

#[test]
fn disabling_all_asset_sub_features_drops_the_corp_asset_scope() {
    let mut flags = flags_with(&[Feature::AssetTracking]);
    assert!(corp_scopes_for(&flags).contains(&scopes::CORPORATION_ASSETS));

    for sub in Feature::AssetTracking.sub_features() {
        flags.set_sub_enabled(sub, false);
    }

    assert!(
        !corp_scopes_for(&flags).contains(&scopes::CORPORATION_ASSETS),
        "with every asset sub-feature off, the corp asset scope must be dropped"
    );
}

#[test]
fn keeping_one_asset_sub_feature_retains_the_corp_asset_scope() {
    let mut flags = flags_with(&[Feature::AssetTracking]);
    for sub in Feature::AssetTracking.sub_features() {
        flags.set_sub_enabled(sub, false);
    }
    flags.set_sub_enabled(SubFeature::Inventory, true);

    assert!(
        corp_scopes_for(&flags).contains(&scopes::CORPORATION_ASSETS),
        "one surviving asset sub-feature must keep the shared corp asset scope"
    );
}

#[test]
fn disabling_extractions_drops_the_corp_structures_scope_independently() {
    let mut flags = flags_with(&[Feature::Industry]);
    assert!(corp_scopes_for(&flags).contains(&scopes::CORPORATION_STRUCTURES));

    flags.set_sub_enabled(SubFeature::Extractions, false);

    let requested = corp_scopes_for(&flags);
    assert!(
        !requested.contains(&scopes::CORPORATION_MINING_EXTRACTIONS),
        "disabling Extractions drops the mining-extractions scope"
    );
    assert!(
        requested.contains(&scopes::CORPORATION_INDUSTRY_JOBS),
        "disabling Extractions leaves the distinct job-monitoring scope intact"
    );
}

#[test]
fn corp_scopes_for_the_union_is_deduplicated_and_sorted() {
    let requested = corp_scopes_for(&flags_all());
    let mut sorted = requested.clone();
    sorted.sort_unstable();
    sorted.dedup();

    assert_eq!(requested, sorted, "the union must be deduplicated and ordered");
}

const LEGACY_SIGN_IN_SCOPES: &[&str] = &[
    scopes::CHARACTER_ASSETS,
    scopes::CHARACTER_CLONES,
    scopes::CHARACTER_LOCATION,
    scopes::CHARACTER_ONLINE,
    scopes::CHARACTER_SHIP,
    scopes::CHARACTER_SKILLQUEUE,
    scopes::CHARACTER_SKILLS,
    scopes::CHARACTER_WALLET,
    scopes::UNIVERSE_STRUCTURES,
];

#[test]
fn a_representative_config_requests_exactly_its_features_union() {
    let flags = flags_with(&[Feature::Wallet, Feature::SkillMonitoring, Feature::LocationTracking]);

    let requested = scopes_for(&flags);

    let mut expected: Vec<&str> = vec![
        scopes::CHARACTER_WALLET,
        scopes::CHARACTER_CONTRACTS,
        scopes::CHARACTER_SKILLS,
        scopes::CHARACTER_SKILLQUEUE,
        scopes::CHARACTER_IMPLANTS,
        scopes::CHARACTER_LOCATION,
        scopes::CHARACTER_ONLINE,
        scopes::CHARACTER_SHIP,
        scopes::UNIVERSE_STRUCTURES,
    ];
    expected.sort_unstable();
    expected.dedup();

    assert_eq!(requested, expected);
    assert!(requested.contains(&scopes::CHARACTER_WALLET));
    assert!(requested.contains(&scopes::CHARACTER_SKILLS));
    assert!(requested.contains(&scopes::CHARACTER_SKILLQUEUE));
    assert!(requested.contains(&scopes::CHARACTER_IMPLANTS));
}

#[test]
fn all_features_on_is_a_superset_of_the_legacy_set() {
    let requested = scopes_for(&flags_all());

    for scope in LEGACY_SIGN_IN_SCOPES {
        assert!(requested.contains(scope), "all-features union must still request {scope}");
    }
}

#[test]
fn disabling_a_feature_drops_its_scopes() {
    let with_mail = scopes_for(&flags_with(&[Feature::Mail, Feature::Wallet]));
    let without_mail = scopes_for(&flags_with(&[Feature::Wallet]));

    assert!(with_mail.contains(&scopes::CHARACTER_MAIL));
    assert!(!without_mail.contains(&scopes::CHARACTER_MAIL));
    assert!(without_mail.contains(&scopes::CHARACTER_WALLET));
}

#[test]
fn disabling_all_asset_sub_features_drops_the_character_asset_scope() {
    let mut flags = flags_with(&[Feature::AssetTracking]);
    assert!(scopes_for(&flags).contains(&scopes::CHARACTER_ASSETS));

    for sub in Feature::AssetTracking.sub_features() {
        flags.set_sub_enabled(sub, false);
    }

    assert!(
        !scopes_for(&flags).contains(&scopes::CHARACTER_ASSETS),
        "with every asset sub-feature off, the shared character asset scope is dropped"
    );
}

#[test]
fn keeping_one_asset_sub_feature_retains_the_character_asset_scope() {
    let mut flags = flags_with(&[Feature::AssetTracking]);
    for sub in Feature::AssetTracking.sub_features() {
        flags.set_sub_enabled(sub, false);
    }
    flags.set_sub_enabled(SubFeature::Stockpiles, true);

    assert!(
        scopes_for(&flags).contains(&scopes::CHARACTER_ASSETS),
        "one surviving asset sub-feature keeps the shared character asset scope"
    );
}

#[test]
fn disabling_contracts_drops_its_scope_while_sibling_wallet_subs_stay_on() {
    let mut flags = flags_with(&[Feature::Wallet]);
    assert!(scopes_for(&flags).contains(&scopes::CHARACTER_CONTRACTS));

    flags.set_sub_enabled(SubFeature::Contracts, false);

    let requested = scopes_for(&flags);
    assert!(!requested.contains(&scopes::CHARACTER_CONTRACTS), "disabling Contracts drops its distinct scope");
    assert!(
        requested.contains(&scopes::CHARACTER_WALLET),
        "the shared wallet scope survives because other wallet sub-features are still on"
    );
}

#[test]
fn enabling_only_transactions_requests_the_wallet_scope_but_not_contracts() {
    let mut flags = flags_with(&[Feature::Wallet]);
    for sub in Feature::Wallet.sub_features() {
        flags.set_sub_enabled(sub, false);
    }
    flags.set_sub_enabled(SubFeature::Transactions, true);

    let requested = scopes_for(&flags);
    assert!(requested.contains(&scopes::CHARACTER_WALLET));
    assert!(
        !requested.contains(&scopes::CHARACTER_ORDERS),
        "Transactions must not request the market-orders scope (no breaking re-auth)"
    );
    assert!(
        !requested.contains(&scopes::CHARACTER_CONTRACTS),
        "with Contracts off, its scope is gone even though Transactions shares the wallet scope"
    );
}

#[test]
fn industry_sub_features_map_to_distinct_scopes() {
    let mut flags = flags_with(&[Feature::Industry]);
    let full = scopes_for(&flags);
    assert!(full.contains(&scopes::CHARACTER_INDUSTRY_JOBS));
    assert!(full.contains(&scopes::CHARACTER_BLUEPRINTS));
    assert!(full.contains(&scopes::CHARACTER_SEARCH));

    flags.set_sub_enabled(SubFeature::Blueprints, false);
    let without_blueprints = scopes_for(&flags);
    assert!(!without_blueprints.contains(&scopes::CHARACTER_BLUEPRINTS), "disabling Blueprints drops only its scope");
    assert!(
        without_blueprints.contains(&scopes::CHARACTER_INDUSTRY_JOBS),
        "Job Monitoring keeps its distinct scope when Blueprints is off"
    );

    flags.set_sub_enabled(SubFeature::Planner, false);
    assert!(
        !scopes_for(&flags).contains(&scopes::CHARACTER_SEARCH),
        "disabling Planner drops the facility-search scope independently"
    );
}

#[test]
fn each_feature_maps_to_a_nonempty_scope_set() {
    for feature in Feature::ALL {
        assert!(!scopes_for(&flags_with(&[feature])).is_empty(), "{feature:?} must map to at least one scope");
    }
}

#[test]
fn mail_requests_the_search_scope_for_recipient_lookup() {
    let mail = scopes_for(&flags_with(&[Feature::Mail]));

    assert!(mail.contains(&scopes::CHARACTER_SEARCH));
}

#[test]
fn mail_requests_the_send_and_organize_scopes() {
    let mail = scopes_for(&flags_with(&[Feature::Mail]));

    assert!(mail.contains(&scopes::CHARACTER_MAIL));
    assert!(mail.contains(&scopes::CHARACTER_MAIL_SEND));
    assert!(mail.contains(&scopes::CHARACTER_MAIL_ORGANIZE));
}

#[test]
fn no_features_requests_no_scopes() {
    assert!(scopes_for(&flags_none()).is_empty());
}

#[test]
fn auth_the_union_is_deduplicated_and_sorted() {
    let requested = scopes_for(&flags_all());
    let mut sorted = requested.clone();
    sorted.sort_unstable();
    sorted.dedup();

    assert_eq!(requested, sorted, "the union must be deduplicated and ordered");
}

#[test]
fn sub_features_are_listed_with_their_parent() {
    for feature in Feature::ALL {
        for sub in feature.sub_features() {
            assert_eq!(sub.parent(), feature);
        }
    }
}

#[test]
fn scope_names_tell_writes_from_reads() {
    assert!(scopes::is_write_scope(scopes::CHARACTER_CONTACTS_WRITE));
    assert!(!scopes::is_write_scope(scopes::CHARACTER_CONTACTS));
    assert!(!scopes::is_write_scope(scopes::CHARACTER_MAIL_SEND));
}
