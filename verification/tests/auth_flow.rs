use pod_roster::auth::{
    update, Callback, CorporationAdded, Effect, Event, Flow, Kind, Message, PendingAuth, SignedIn, State, Status,
    MALFORMED_CALLBACK,
};
use pod_roster::features::{Feature, FeatureFlags};

fn flow_flags(features: &[Feature]) -> FeatureFlags {
    let mut flags = FeatureFlags::default();
    for feature in Feature::ALL {
        flags.set_enabled(feature, features.contains(&feature));
    }
    flags
}

fn pending() -> PendingAuth {
    PendingAuth {
        state: "test-state".to_owned(),
        url: "https://example.com/auth".to_owned(),
        verifier: "test-verifier".to_owned(),
    }
}

fn keeps_pending(state: &State) -> bool {
    matches!(state.flow(), Some(Flow { pending: Some(p), .. })
        if p.state == "test-state" && p.url == "https://example.com/auth" && p.verifier == "test-verifier")
}

fn waiting_for(kind: Kind) -> State {
    State::with_flow(Flow { features: FeatureFlags::default(), kind, pending: Some(pending()), status: Status::Waiting })
}

fn completing_for(kind: Kind) -> State {
    State::with_flow(Flow { features: FeatureFlags::default(), kind, pending: Some(pending()), status: Status::Completing })
}

fn callback() -> Callback {
    Callback { code: "abc".to_owned(), state: "test-state".to_owned() }
}

#[test]
fn a_valid_add_corporation_callback_moves_the_flow_to_completing() {
    let mut state = waiting_for(Kind::AddCorporation);

    let (effect, event) = update(&mut state, Message::CallbackReceived(Some(callback())));

    assert!(matches!(
        state.flow(),
        Some(Flow { kind: Kind::AddCorporation, status: Status::Completing, .. })
    ));
    assert!(matches!(
        effect,
        Effect::AddCorporation { pending: Some(p), callback: c }
            if c.code == "abc" && c.state == "test-state" && p.verifier == "test-verifier"
    ));
    assert!(keeps_pending(&state));
    assert!(event.is_none());
}

#[test]
fn a_valid_sign_in_callback_moves_the_flow_to_completing() {
    let mut state = waiting_for(Kind::SignIn);

    let (effect, event) = update(&mut state, Message::CallbackReceived(Some(callback())));

    assert!(matches!(state.flow(), Some(Flow { status: Status::Completing, .. })));
    assert!(matches!(
        effect,
        Effect::CompleteSignIn { pending: Some(p), callback: c } if c.code == "abc" && p.state == "test-state"
    ));
    assert!(keeps_pending(&state));
    assert!(event.is_none());
}

#[test]
fn callback_with_a_malformed_url_fails_the_flow() {
    let mut state = waiting_for(Kind::SignIn);

    let (effect, event) = update(&mut state, Message::CallbackReceived(None));

    assert!(matches!(state.flow(), Some(Flow { status: Status::Failed(e), .. }) if e == MALFORMED_CALLBACK));
    assert!(keeps_pending(&state));
    assert!(matches!(effect, Effect::Nothing));
    assert!(event.is_none());
}

#[test]
fn callback_without_a_flow_is_a_noop() {
    let mut state = State::default();

    let (effect, event) = update(&mut state, Message::CallbackReceived(Some(callback())));

    assert!(!state.is_active());
    assert!(matches!(effect, Effect::Nothing));
    assert!(event.is_none());
}

#[test]
fn cancel_clears_the_flow() {
    let mut state = waiting_for(Kind::SignIn);

    let (_effect, event) = update(&mut state, Message::Cancel);

    assert!(!state.is_active());
    assert!(event.is_none());
}

#[test]
fn completed_err_fails_an_active_flow() {
    let mut state = completing_for(Kind::SignIn);

    let (_effect, event) = update(&mut state, Message::Completed(Err("boom".to_owned())));

    assert!(matches!(state.flow(), Some(Flow { status: Status::Failed(e), .. }) if e == "boom"));
    assert!(keeps_pending(&state));
    assert!(event.is_none());
}

#[test]
fn completed_err_without_a_flow_is_dropped() {
    let mut state = State::default();

    let (_effect, event) = update(&mut state, Message::Completed(Err("boom".to_owned())));

    assert!(!state.is_active());
    assert!(event.is_none());
}

#[test]
fn completed_ok_emits_signed_in_and_clears_the_flow() {
    let mut state = completing_for(Kind::SignIn);
    let signed = SignedIn { character_id: 42, character_name: "Pilot".to_owned() };

    let (_effect, event) = update(&mut state, Message::Completed(Ok(signed)));

    assert!(!state.is_active());
    assert!(matches!(event, Some(Event::SignedIn(s)) if s.character_id == 42));
}

#[test]
fn corporation_completed_err_fails_an_active_flow() {
    let mut state = completing_for(Kind::AddCorporation);

    let (_effect, event) = update(&mut state, Message::CorporationCompleted(Err("nope".to_owned())));

    assert!(matches!(state.flow(), Some(Flow { status: Status::Failed(_), .. })));
    assert!(keeps_pending(&state));
    assert!(event.is_none());
}

#[test]
fn corporation_completed_ok_emits_corporation_added_and_clears_the_flow() {
    let mut state = completing_for(Kind::AddCorporation);
    let added = CorporationAdded { authorizing_character_id: 42, corporation_id: 2000 };

    let (_effect, event) = update(&mut state, Message::CorporationCompleted(Ok(added)));

    assert!(!state.is_active());
    assert!(matches!(event, Some(Event::CorporationAdded(c)) if c.corporation_id == 2000));
}

#[test]
fn start_add_corporation_records_the_supplied_features() {
    let mut state = State::default();

    let (effect, event) = update(&mut state, Message::StartAddCorporation(flow_flags(&[Feature::Industry])));

    let flow = state.flow().expect("a corp flow should be active");
    assert_eq!(flow.kind, Kind::AddCorporation);
    assert_eq!(flow.features, flow_flags(&[Feature::Industry]));
    assert!(matches!(effect, Effect::Authorize { kind: Kind::AddCorporation, .. }));
    assert!(event.is_none());
}

#[test]
fn start_asks_for_the_sorted_scopes_of_the_features() {
    let mut state = State::default();

    let (effect, _event) = update(&mut state, Message::Start(flow_flags(&[Feature::Mail])));

    match effect {
        Effect::Authorize { kind, scopes } => {
            assert_eq!(kind, Kind::SignIn);
            let mut sorted = scopes.clone();
            sorted.sort();
            sorted.dedup();
            assert_eq!(scopes, sorted);
            assert!(!scopes.is_empty());
        },
        other => panic!("expected an authorization, got {other:?}"),
    }
    assert!(matches!(state.flow(), Some(Flow { kind: Kind::SignIn, status: Status::Waiting, .. })));
}

#[test]
fn a_failed_browser_launch_explains_how_to_continue() {
    let mut state = waiting_for(Kind::SignIn);

    let _ = update(&mut state, Message::BrowserOpened(Err("no display".to_owned())));

    assert!(matches!(
        state.flow(),
        Some(Flow { status: Status::Failed(e), .. })
            if e == "Couldn't open your browser (no display). Open the EVE sign-in page manually to continue."
    ));
    assert!(keeps_pending(&state));
}

#[test]
fn a_handed_back_authorization_is_kept_and_its_page_opened() {
    let mut state = State::default();
    let _ = update(&mut state, Message::Start(flow_flags(&[Feature::Mail])));
    assert!(matches!(state.flow(), Some(Flow { pending: None, .. })));

    let (effect, event) = update(&mut state, Message::Authorized(pending()));

    assert!(matches!(effect, Effect::OpenBrowser(url) if url == "https://example.com/auth"));
    assert!(event.is_none());
    assert!(keeps_pending(&state));
    assert!(matches!(state.flow(), Some(Flow { kind: Kind::SignIn, status: Status::Waiting, .. })));
}

#[test]
fn the_exchange_runs_under_the_handed_back_authorization() {
    let mut state = State::default();
    let _ = update(&mut state, Message::StartAddCorporation(flow_flags(&[Feature::Industry])));
    let _ = update(&mut state, Message::Authorized(pending()));

    let (effect, _event) = update(&mut state, Message::CallbackReceived(Some(callback())));

    assert!(matches!(
        effect,
        Effect::AddCorporation { pending: Some(p), callback: c }
            if p.state == "test-state" && p.url == "https://example.com/auth" && p.verifier == "test-verifier"
                && c.code == "abc"
    ));
}

#[test]
fn an_authorization_after_a_cancel_is_dropped() {
    let mut state = State::default();
    let _ = update(&mut state, Message::Start(flow_flags(&[Feature::Mail])));
    let _ = update(&mut state, Message::Cancel);

    let (effect, _event) = update(&mut state, Message::Authorized(pending()));

    assert!(matches!(effect, Effect::Nothing));
    assert!(!state.is_active());
}
