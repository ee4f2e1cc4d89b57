use pod_roster::calendar::{date_or_today, displayed_date, human_date, yc_label, yc_year, DayStamp};
use pod_roster::nudge::{eve_date_label, evaluate, Nudge};
use pod_roster::prompts::Completeness;
use pod_roster::log_model::AnswerKey;

fn date(day: u32) -> DayStamp {
    DayStamp { year: 2026, month: 7, day }
}

#[test]
fn it_offsets_the_gregorian_year_by_the_yc_epoch() {
    assert_eq!(yc_year(2026), 128);
    assert_eq!(yc_year(1898), 0);
}

#[test]
fn it_formats_a_yc_year_label() {
    assert_eq!(yc_label(date(6)), "YC 128");
}

#[test]
fn a_year_before_the_epoch_is_negative() {
    assert_eq!(yc_label(DayStamp { year: 1890, month: 1, day: 1 }), "YC -8");
}

#[test]
fn it_stays_hidden_until_a_day_is_evaluated() {
    let nudge = Nudge::default();

    assert!(!nudge.visible());
}

#[test]
fn it_shows_once_an_incomplete_day_is_evaluated() {
    let mut nudge = Nudge::default();
    nudge.evaluated(date(6), false);

    assert!(nudge.visible());
    assert_eq!(nudge.shown_day(), Some(date(6)));
}

#[test]
fn it_hides_when_todays_log_is_complete() {
    let mut nudge = Nudge::default();
    nudge.evaluated(date(6), true);

    assert!(!nudge.visible());
}

#[test]
fn it_hides_after_being_dismissed_today() {
    let mut nudge = Nudge::default();
    nudge.evaluated(date(6), false);

    let dismissed = nudge.dismiss();

    assert_eq!(dismissed, Some(date(6)));
    assert!(!nudge.visible());
}

#[test]
fn it_shows_again_once_a_new_day_is_evaluated() {
    let mut nudge = Nudge::default();
    nudge.evaluated(date(6), false);
    nudge.dismiss();

    nudge.evaluated(date(7), false);

    assert!(nudge.visible());
}

#[test]
fn it_restores_a_prior_days_dismissal_without_suppressing_a_new_day() {
    let mut nudge = Nudge::default();
    nudge.restore_dismissed(Some(date(6)));

    nudge.evaluated(date(6), false);
    assert!(!nudge.visible());

    nudge.evaluated(date(7), false);
    assert!(nudge.visible());
}

#[test]
fn it_formats_the_date_as_yc_year_month_day() {
    assert_eq!(eve_date_label(date(5)), "YC128.07.05");
    assert_eq!(eve_date_label(DayStamp { year: 2026, month: 12, day: 31 }), "YC128.12.31");
}

#[test]
fn a_failed_lookup_counts_as_complete() {
    assert!(evaluate(None));
    assert!(evaluate(Some(&Completeness::default())));
    let mut missing = Completeness::default();
    missing.missing_prompts.push(AnswerKey::Goal);
    assert!(!evaluate(Some(&missing)));
}

fn today() -> DayStamp {
    DayStamp { year: 2026, month: 7, day: 9 }
}

#[test]
fn it_uses_the_selected_day_when_one_is_chosen() {
    assert_eq!(displayed_date(Some("2026-07-04"), today()), DayStamp { year: 2026, month: 7, day: 4 });
}

#[test]
fn it_falls_back_to_today_when_the_selection_is_unparseable() {
    assert_eq!(displayed_date(Some("not-a-date"), today()), today());
    assert_eq!(displayed_date(Some("2026-02-30"), today()), today());
}

#[test]
fn it_falls_back_to_today_when_nothing_is_selected() {
    assert_eq!(displayed_date(None, today()), today());
    assert_eq!(date_or_today(None, today()), today());
    assert_eq!(date_or_today(Some(date(1)), today()), date(1));
}

#[test]
fn it_renders_the_weekday_day_and_month() {
    assert_eq!(human_date(date(5)).as_deref(), Some("Sunday, 5 July"));
    assert_eq!(human_date(DayStamp { year: 2026, month: 2, day: 30 }), None);
}

#[test]
fn every_real_day_has_a_long_form_and_no_other_does() {
    assert_eq!(human_date(DayStamp { year: 2024, month: 2, day: 29 }).as_deref(), Some("Thursday, 29 February"));
    assert_eq!(human_date(DayStamp { year: 2023, month: 2, day: 29 }), None);
    assert_eq!(human_date(DayStamp { year: 2023, month: 4, day: 31 }), None);
    assert_eq!(human_date(DayStamp { year: 2023, month: 13, day: 1 }), None);
    assert_eq!(human_date(DayStamp { year: 2023, month: 1, day: 0 }), None);
    assert!(human_date(DayStamp { year: -4, month: 2, day: 29 }).is_some());
    assert!(human_date(DayStamp { year: 262142, month: 12, day: 31 }).is_some());
    assert_eq!(human_date(DayStamp { year: 262143, month: 1, day: 1 }), None);
    assert!(human_date(DayStamp { year: -262143, month: 1, day: 1 }).is_some());
    assert_eq!(human_date(DayStamp { year: -262144, month: 12, day: 31 }), None);
}
