use pod_roster::deep_link::{
    breadcrumb_message, claim_attempt, classify, dispatch_received, dispatch_signal, file_signal,
    file_url_to_path, forward_or_claim, percent_decode_bytes, recover_stale, resolve_claim, resolve_socket_dir,
    validate, BindRecovery, Claim, ClaimAttempt, Dispatch, Mailbox, Signal, FILE_SIGNAL_PREFIX, FOCUS_PING, SCHEME,
};

#[test]
fn it_records_an_info_breadcrumb_for_a_forwarded_callback() {
    let url = format!("{SCHEME}://callback");

    let line = breadcrumb_message(Some(&url), &Claim::Forwarded);

    assert!(line.contains("[INFO]"));
    assert!(line.contains(&url));
}

#[test]
fn it_records_an_info_breadcrumb_for_a_no_url_focus_and_for_becoming_primary() {
    let focused = breadcrumb_message(None, &Claim::Forwarded);
    let became_primary = breadcrumb_message(None, &Claim::Primary { pending: None });

    assert!(focused.contains("[INFO]"));
    assert!(became_primary.contains("[INFO]"));
}

#[test]
fn it_warns_when_a_forward_falls_through_to_local_handling() {
    let url = format!("{SCHEME}://callback");

    let line = breadcrumb_message(Some(&url), &Claim::Primary { pending: Some(url.clone()) });

    assert!(line.contains("[WARN]"));
    assert!(line.contains(&url));
}

#[test]
fn it_becomes_primary_when_a_no_url_launch_finds_no_running_primary() {
    assert!(matches!(claim_attempt(&None), ClaimAttempt::RequestFocus));
    let claim = resolve_claim(None, false);

    assert_eq!(claim, Claim::Primary { pending: None });
}

#[test]
fn it_focuses_a_running_primary_when_a_no_url_launch_reaches_one() {
    let claim = resolve_claim(None, true);

    assert_eq!(claim, Claim::Forwarded);
}

#[test]
fn it_forwards_a_callback_url_to_the_primary() {
    let url = format!("{SCHEME}://callback");
    assert!(matches!(claim_attempt(&Some(url.clone())), ClaimAttempt::ForwardUrl(u) if u == url));
    let claim = resolve_claim(Some(url), true);

    assert_eq!(claim, Claim::Forwarded);
}

#[test]
fn it_keeps_the_url_and_becomes_primary_when_forwarding_fails() {
    let url = format!("{SCHEME}://callback");

    let claim = resolve_claim(Some(url.clone()), false);

    assert_eq!(claim, Claim::Primary { pending: Some(url) });
}

#[test]
fn a_launch_that_becomes_primary_stashes_its_callback_for_the_subscription() {
    let url = format!("{SCHEME}://callback?code=cold&state=start");
    let mut mailbox = Mailbox::new();

    let exits = forward_or_claim(Claim::Primary { pending: Some(url.clone()) }, &mut mailbox);

    assert!(!exits);
    assert_eq!(mailbox.register_url_listener(), Some(url));
    assert_eq!(mailbox.register_url_listener(), None);
}

#[test]
fn a_forwarded_launch_exits_without_stashing_anything() {
    let mut mailbox = Mailbox::new();

    assert!(forward_or_claim(Claim::Forwarded, &mut mailbox));
    assert_eq!(mailbox.register_url_listener(), None);
}

#[test]
fn it_drains_a_url_stashed_in_pending_before_the_sender_registers() {
    let mut mailbox = Mailbox::new();
    mailbox.set_pending(format!("{SCHEME}://callback?code=cold&state=start"));

    let delivered = mailbox.register_url_listener();

    assert_eq!(delivered, Some(format!("{SCHEME}://callback?code=cold&state=start")));
    assert_eq!(mailbox.register_url_listener(), None, "PENDING is drained, not left set");
}

#[test]
fn deliveries_reach_only_registered_subscriptions() {
    let mut mailbox = Mailbox::new();
    assert_eq!(mailbox.deliver("eveauth-pod://callback".to_owned()), None);
    assert!(!mailbox.deliver_focus());

    mailbox.register_url_listener();
    mailbox.register_focus_listener();

    assert_eq!(mailbox.deliver("eveauth-pod://callback".to_owned()), Some("eveauth-pod://callback".to_owned()));
    assert!(mailbox.deliver_focus());
}

#[test]
fn it_recognizes_an_eveauth_pod_url_as_a_callback() {
    let url = format!("{}://callback?code=a&state=b", SCHEME);

    assert!(matches!(classify(&url), Some(Signal::Url(delivered)) if delivered == url));
}

#[test]
fn it_recognizes_a_pack_file_signal_and_strips_the_prefix() {
    let payload = format!("{FILE_SIGNAL_PREFIX}/tmp/rules.pbr");

    assert!(matches!(classify(&payload), Some(Signal::File(path)) if path == "/tmp/rules.pbr"));
}

#[test]
fn it_recognizes_the_focus_ping() {
    assert!(matches!(classify(FOCUS_PING), Some(Signal::Focus)));
}

#[test]
fn it_rejects_a_payload_that_is_neither_a_callback_nor_the_focus_ping() {
    assert!(classify("https://evil.example/callback").is_none());
    assert!(classify("eveauth-pod-evil://callback").is_none());
    assert!(classify("").is_none());
}

#[test]
fn it_drops_a_bare_file_path_that_lacks_the_signal_prefix() {
    assert!(classify("/tmp/rules.pbr").is_none());
    assert!(classify(r"C:\Users\me\plan.psp").is_none());
}

#[test]
fn it_delivers_a_callback_url_to_the_handler() {
    let url = format!("{}://callback?code=a&state=b", SCHEME);

    assert!(matches!(dispatch_signal(&url), Dispatch::DeliverUrl(delivered) if delivered == url));
}

#[test]
fn it_ignores_a_payload_that_is_neither_a_callback_nor_a_ping() {
    assert!(matches!(dispatch_signal("https://evil.example/callback"), Dispatch::Ignore));
}

#[test]
fn it_does_not_deliver_a_payload_that_lacks_the_scheme_prefix() {
    assert!(matches!(dispatch_received("  https://evil.example/callback\n"), Dispatch::Ignore));
}

#[test]
fn a_file_signal_raises_the_window_and_round_trips_the_path() {
    let payload = file_signal(r"C:\Users\me\plan.psp");

    assert_eq!(payload, "pod-deeplink:file:C:\\Users\\me\\plan.psp");
    assert!(matches!(dispatch_signal(&payload), Dispatch::DeliverFileAndFocus(path) if path == r"C:\Users\me\plan.psp"));
}

#[test]
fn a_received_payload_is_trimmed_before_it_is_read() {
    assert!(matches!(dispatch_received("  pod-deeplink:focus\n"), Dispatch::Focus));
    assert!(matches!(dispatch_received("\teveauth-pod://callback?code=a \n"), Dispatch::DeliverUrl(u) if u == "eveauth-pod://callback?code=a"));
}

#[test]
fn validate_keeps_only_callbacks() {
    assert_eq!(validate("eveauth-pod://callback?x=1"), Some("eveauth-pod://callback?x=1".to_owned()));
    assert_eq!(validate("eveauth-pod:/callback"), None);
}

#[test]
fn it_strips_the_file_scheme_and_percent_decodes_the_path() {
    assert_eq!(file_url_to_path("file:///Users/me/My%20Packs/rules.pbr"), "/Users/me/My Packs/rules.pbr");
}

#[test]
fn it_returns_a_bare_posix_path_unchanged() {
    assert_eq!(file_url_to_path("/Users/me/plan.psp"), "/Users/me/plan.psp");
}

#[test]
fn it_reassembles_multi_byte_utf8_escapes() {
    assert_eq!(file_url_to_path("file:///Users/me/%C3%A9t%C3%A9.pbr"), "/Users/me/été.pbr");
}

#[test]
fn a_malformed_escape_keeps_the_percent_and_drops_the_two_bytes_after_it() {
    assert_eq!(percent_decode_bytes(b"a%zzb"), b"a%b".to_vec());
    assert_eq!(percent_decode_bytes(b"ab%4"), b"ab%".to_vec());
    assert_eq!(percent_decode_bytes(b"%41%42"), b"AB".to_vec());
}

#[test]
fn it_falls_back_to_the_data_dir_when_the_runtime_dir_is_unset() {
    let resolved = resolve_socket_dir(None, "/home/me/.local/share/pod".to_owned());

    assert_eq!(resolved, "/home/me/.local/share/pod");
}

#[test]
fn it_prefers_the_runtime_dir_when_present() {
    let resolved = resolve_socket_dir(Some("/run/user/1000".to_owned()), "/home/me/.local/share/pod".to_owned());

    assert_eq!(resolved, "/run/user/1000");
}

#[test]
fn it_accepts_an_eveauth_pod_url() {
    let url = format!("{SCHEME}://callback?code=a&state=b");

    assert_eq!(validate(&url), Some(url.clone()));
}

#[test]
fn it_rejects_a_payload_without_the_scheme_prefix() {
    assert_eq!(validate("https://evil.example/callback?code=a&state=b"), None);
    assert_eq!(validate("eveauth-pod-evil://callback"), None);
    assert_eq!(validate(""), None);
}

#[test]
fn a_dead_primarys_socket_is_taken_over_and_a_live_one_kept() {
    assert_eq!(recover_stale(true, false), BindRecovery::RemoveAndRetry);
    assert_eq!(recover_stale(true, true), BindRecovery::GiveUp);
    assert_eq!(recover_stale(false, false), BindRecovery::GiveUp);
}
