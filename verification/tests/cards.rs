use pod_roster::cards::{
    group_thousands, is_failing, member_count, overflow_count, paused_label_key, roman, status_label_key, MemberCount,
    Phase, CHIP_CAP, MAX_TAGS, THIN_SPACE,
};

fn members(value: Option<i64>) -> Option<String> {
    match member_count(value) {
        MemberCount::Placeholder => None,
        MemberCount::Millions(v) => Some(format!("{}M", v)),
        MemberCount::Exact(s) => Some(s),
    }
}

#[test]
fn list_row_it_flags_only_failing_or_backing_off_phases() {
    assert!(is_failing(Some(Phase::Failed)));
    assert!(is_failing(Some(Phase::BackingOff)));

    assert!(!is_failing(None));
    assert!(!is_failing(Some(Phase::Syncing)));
    assert!(!is_failing(Some(Phase::Done)));
}

#[test]
fn corp_list_row_it_flags_only_failing_or_backing_off_phases() {
    assert!(is_failing(Some(Phase::Failed)));
    assert!(is_failing(Some(Phase::BackingOff)));

    assert!(!is_failing(None));
    assert!(!is_failing(Some(Phase::Syncing)));
}

#[test]
fn card_it_maps_levels_one_through_five() {
    assert_eq!(roman(1), "I");
    assert_eq!(roman(5), "V");
    assert_eq!(roman(7), "7");
}

#[test]
fn compact_card_it_maps_levels_one_through_five() {
    assert_eq!(roman(2), "II");
    assert_eq!(roman(3), "III");
    assert_eq!(roman(4), "IV");
    assert_eq!(roman(0), "0");
}

#[test]
fn list_row_it_maps_levels_one_through_five() {
    assert_eq!(roman(1), "I");
    assert_eq!(roman(5), "V");
    assert_eq!(roman(-2), "-2");
}

#[test]
fn it_labels_docked_in_space_and_renders_no_pill_when_unknown() {
    assert_eq!(status_label_key(Some(true)), Some("roster.card.docked"));
    assert_eq!(status_label_key(Some(false)), Some("roster.card.in_space"));
    assert_eq!(status_label_key(None), None);
}

#[test]
fn it_labels_docked_in_space_and_stays_silent_when_unknown() {
    assert_eq!(status_label_key(Some(true)), Some("roster.card.docked"));
    assert_eq!(status_label_key(None), None);
}

#[test]
fn it_labels_a_paused_queue_with_its_real_count() {
    assert_eq!(paused_label_key(4), "roster.card.paused_queued_other");
    assert_eq!(paused_label_key(0), "roster.card.paused_queued_other");
}

#[test]
fn it_uses_the_singular_noun_for_a_one_skill_paused_queue() {
    assert_eq!(paused_label_key(1), "roster.card.paused_queued_one");
}

#[test]
fn it_reports_the_tags_beyond_the_cap() {
    assert_eq!(overflow_count(5, CHIP_CAP), Some(2));
}

#[test]
fn it_stays_quiet_at_or_below_the_cap() {
    assert_eq!(overflow_count(3, CHIP_CAP), None);
    assert_eq!(overflow_count(0, CHIP_CAP), None);
}

#[test]
fn list_row_it_caps_the_tag_row_and_shows_an_overflow_count() {
    assert_eq!(overflow_count(7, MAX_TAGS), Some(3));
}

#[test]
fn corp_list_row_it_caps_the_tag_row_and_shows_an_overflow_count() {
    assert_eq!(overflow_count(7, MAX_TAGS), Some(3));
    assert_eq!(overflow_count(4, MAX_TAGS), None);
}

#[test]
fn corp_compact_card_it_uses_millions_thin_space_thousands_and_raw_figures() {
    assert!(matches!(member_count(Some(2_400_000)), MemberCount::Millions(2_400_000)));
    assert_eq!(members(Some(1_247)).as_deref(), Some("1\u{2009}247"));
    assert_eq!(members(Some(89)).as_deref(), Some("89"));
}

#[test]
fn corp_list_row_it_uses_millions_thin_space_thousands_and_raw_figures() {
    assert!(matches!(member_count(Some(2_400_000)), MemberCount::Millions(2_400_000)));
    assert_eq!(members(Some(12_400)).as_deref(), Some("12\u{2009}400"));
    assert_eq!(members(Some(1_247)).as_deref(), Some("1\u{2009}247"));
    assert_eq!(members(Some(89)).as_deref(), Some("89"));
}

#[test]
fn corp_compact_card_it_returns_the_placeholder_for_an_unknown_count() {
    assert!(matches!(member_count(None), MemberCount::Placeholder));
}

#[test]
fn corp_list_row_it_returns_the_placeholder_for_an_unknown_count() {
    assert!(matches!(member_count(None), MemberCount::Placeholder));
}

#[test]
fn thousands_are_grouped_by_thin_spaces_from_the_right() {
    assert_eq!(THIN_SPACE, '\u{2009}');
    assert_eq!(group_thousands(999), "999");
    assert_eq!(group_thousands(1_000), "1\u{2009}000");
    assert_eq!(group_thousands(999_999), "999\u{2009}999");
    assert_eq!(group_thousands(1_234_567), "1\u{2009}234\u{2009}567");
}
