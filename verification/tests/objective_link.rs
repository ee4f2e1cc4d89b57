use pod_roster::prompts::DisplayText;
use pod_roster::objective_link::{
    source_label, options, to_option, Data, LinkSource, Objective, ObjectiveLink, ObjectiveOption, ObjectiveStatus, State,
};

fn objective(id: i64, title: &str) -> ObjectiveOption {
    ObjectiveOption { id, title: title.to_owned(), accent: "#7aa2f7".to_owned(), status: ObjectiveStatus::Active }
}

fn log_answer(question: &str) -> LinkSource {
    LinkSource::log_answer(question.to_owned())
}

fn link(objective_id: i64, date: &str, source: &LinkSource) -> ObjectiveLink {
    ObjectiveLink {
        date: date.to_owned(),
        objective_id,
        source_kind: source.source_kind().to_owned(),
        source_ref: source.source_ref().to_owned(),
    }
}

#[test]
fn it_resolves_the_objective_a_source_is_linked_to() {
    let mut state = State::default();
    state.set_objectives(vec![objective(1, "Fund a Nyx"), objective(2, "Break the doctrine")]);
    let source = log_answer("goal");
    state.set_day_links("2026-07-05".to_owned(), vec![link(2, "2026-07-05", &source)]);

    assert_eq!(state.linked_id("2026-07-05", &source), Some(2));
    assert_eq!(state.linked_objective("2026-07-05", &source).map(|o| o.id), Some(2));
    assert_eq!(state.linked_id("2026-07-04", &source), None);
    assert_eq!(state.linked_id("2026-07-05", &log_answer("next")), None);
}

#[test]
fn it_lists_only_active_objectives_for_the_picker() {
    let mut state = State::default();
    let mut done = objective(2, "Done");
    done.status = ObjectiveStatus::Complete;
    state.set_objectives(vec![objective(1, "Live"), done]);

    let active: Vec<i64> = state.active().iter().map(|objective| objective.id).collect();
    assert_eq!(active, vec![1]);
}

#[test]
fn it_toggles_a_picker_open_and_closed_for_a_source() {
    let mut state = State::default();
    let source = log_answer("goal");

    state.toggle("2026-07-05".to_owned(), source.clone());
    assert!(state.is_open("2026-07-05", &source));
    assert!(!state.is_open("2026-07-04", &source));

    state.toggle("2026-07-05".to_owned(), source.clone());
    assert!(!state.is_open("2026-07-05", &source));
}

#[test]
fn it_tracks_the_create_draft_within_an_open_picker() {
    let mut state = State::default();
    let source = log_answer("goal");
    state.toggle("2026-07-05".to_owned(), source.clone());

    state.start_create();
    state.set_draft("Fund a Nyx".to_owned());
    assert!(state.is_creating("2026-07-05", &source));
    assert_eq!(state.draft(), "Fund a Nyx");

    state.cancel_create();
    assert!(!state.is_creating("2026-07-05", &source));
    assert_eq!(state.draft(), "");
}

#[test]
fn it_dispatches_every_picker_message() {
    let mut state = State::default();
    state.set_objectives(vec![objective(7, "Anchor")]);
    let source = log_answer("goal");
    let date = "2026-07-05";
    state.set_day_links(date.to_owned(), vec![link(3, date, &source)]);

    state.toggle(date.to_owned(), source.clone());
    state.start_create();
    assert_eq!(state.take_create_title(), None);
    assert!(state.is_open(date, &source), "an empty draft leaves the picker open");

    let change = state.apply_link(date, &source, Some(7));
    assert_eq!(change.clear, Some(3));
    assert_eq!(change.set, Some(7));
    assert!(!state.is_open(date, &source));

    state.toggle(date.to_owned(), source.clone());
    state.start_create();
    state.set_draft("  Break the doctrine ".to_owned());
    assert_eq!(state.take_create_title().as_deref(), Some("Break the doctrine"));
    assert!(!state.is_open(date, &source), "a real create closes the picker");
}

#[test]
fn it_reloads_objectives_and_a_days_links() {
    let mut state = State::default();
    let source = log_answer("goal");

    state.apply(Data {
        objectives: vec![objective(1, "Live")],
        links: vec![("2026-07-05".to_owned(), vec![link(1, "2026-07-05", &source)])],
    });

    assert_eq!(state.active().len(), 1);
    assert_eq!(state.linked_id("2026-07-05", &source), Some(1));
    assert_eq!(state.day_links("2026-07-05").map(Vec::len), Some(1));
    assert!(state.day_links("2026-07-04").is_none());
}

#[test]
fn a_stored_objective_reads_its_status() {
    let stored = Objective {
        id: 4,
        title: "Haul".to_owned(),
        accent: "#fff".to_owned(),
        status: "cancelled".to_owned(),
    };

    assert_eq!(to_option(&stored).status, ObjectiveStatus::Cancelled);
    assert_eq!(options(&vec![stored]).len(), 1);
    assert_eq!(ObjectiveStatus::parse("complete"), Some(ObjectiveStatus::Complete));
    assert_eq!(ObjectiveStatus::parse("paused"), None);
}

#[test]
fn a_known_source_kind_is_named_by_its_key() {
    assert!(matches!(source_label("killmail"), DisplayText::Key(k) if k == "standing_orders.thread.source.killmail"));
    assert!(matches!(source_label("contract"), DisplayText::Literal(k) if k == "contract"));
}
