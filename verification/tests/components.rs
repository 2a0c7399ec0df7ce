use iloader::account::choose_team;
use iloader::account::forget_id;
use iloader::account::remember_id;
use iloader::account::Account;
use iloader::account::AccountStore;
use iloader::account::AuthenticationError;
use iloader::account::SESSION_EXPIRED_CODE;
use iloader::challenge::ChallengeBridge;
use iloader::challenge::ChallengeError;
use iloader::device::describe_device;
use iloader::device::find_by_uuid;
use iloader::device::DeviceError;
use iloader::device::DeviceInfo;
use iloader::device::DeviceRegistry;
use iloader::session::with_session;
use iloader::session::SessionError;
use iloader::session::SessionGuard;
use iloader::session::SessionSlot;
use iloader::text::str_eq;
use iloader::text::unquote;
use iloader::workflow::transport_ok;

#[test]
fn guard_cycles_leave_the_slot_as_it_began() {
    let mut slot: SessionSlot<String> = SessionSlot::empty();
    slot.install("session-0".to_string());
    for round in 0..5 {
        let guard = SessionGuard::take(&mut slot).unwrap();
        assert!(slot.is_empty());
        // while checked out, a second acquisition fails
        assert_eq!(
            SessionGuard::take(&mut slot).err(),
            Some(SessionError::SessionUnavailable)
        );
        // whatever the use step did — round is unused on purpose — the
        // session goes back on every exit
        let _ = round;
        guard.release(&mut slot);
        assert!(!slot.is_empty());
    }
    let guard = SessionGuard::take(&mut slot).unwrap();
    assert_eq!(guard.session().as_str(), "session-0");
    guard.release(&mut slot);
}

#[test]
fn acquiring_from_an_empty_slot_fails_immediately() {
    let mut slot: SessionSlot<u64> = SessionSlot::empty();
    match SessionGuard::take(&mut slot) {
        Err(SessionError::SessionUnavailable) => {}
        _ => panic!("expected SessionUnavailable"),
    }
    assert_eq!(
        SessionError::SessionUnavailable.message(),
        "Not logged in".to_string()
    );
}

#[test]
fn with_session_restores_on_success_and_on_error() {
    let mut slot: SessionSlot<u64> = SessionSlot::empty();
    slot.install(11);
    let ok: Result<Result<u64, String>, SessionError> =
        with_session(&mut slot, |s| (s, Ok(s * 2)));
    assert_eq!(ok.unwrap(), Ok(22));
    assert!(!slot.is_empty());
    let failed: Result<Result<u64, String>, SessionError> =
        with_session(&mut slot, |s| (s, Err("install failed".to_string())));
    assert_eq!(failed.unwrap(), Err("install failed".to_string()));
    assert!(!slot.is_empty());
    slot.clear();
    let none: Result<u64, SessionError> = with_session(&mut slot, |s| (s, 0));
    assert_eq!(none, Err(SessionError::SessionUnavailable));
}

#[test]
fn quoted_and_bare_payloads_yield_the_same_code() {
    let mut bridge = ChallengeBridge::new();
    let first = bridge.open_request();
    assert_eq!(bridge.accept(first, "\"123456\""), Some("123456".to_string()));
    let second = bridge.open_request();
    assert_ne!(first, second);
    assert_eq!(bridge.accept(second, "123456"), Some("123456".to_string()));
}

#[test]
fn a_timed_out_attempt_leaves_the_bridge_usable() {
    let mut bridge = ChallengeBridge::new();
    let first = bridge.open_request();
    let cause = bridge.abandon(first, ChallengeError::TimedOut);
    assert_eq!(cause, ChallengeError::TimedOut);
    assert_eq!(cause.message(), "2FA cancelled or timed out".to_string());
    // the registration is gone: a late response for it is rejected
    assert_eq!(bridge.accept(first, "\"111111\""), None);
    // a subsequent independent attempt still succeeds
    let second = bridge.open_request();
    assert_eq!(bridge.accept(second, "\"222222\""), Some("222222".to_string()));
}

#[test]
fn a_stale_response_is_never_misdelivered_to_a_later_attempt() {
    let mut bridge = ChallengeBridge::new();
    let first = bridge.open_request();
    // a second attempt supersedes the first before any response arrives
    let second = bridge.open_request();
    assert_eq!(bridge.accept(first, "\"999999\""), None);
    assert_eq!(bridge.accept(second, "\"314159\""), Some("314159".to_string()));
    // the request was single-use
    assert_eq!(bridge.accept(second, "\"314159\""), None);
    assert_eq!(
        ChallengeError::Disconnected.message(),
        "2FA disconnected".to_string()
    );
}

#[test]
fn unquote_handles_the_edges() {
    assert_eq!(unquote(""), "".to_string());
    assert_eq!(unquote("\"\"\"\""), "".to_string());
    assert_eq!(unquote("\"\"12\"34\"\""), "12\"34".to_string());
    assert_eq!(unquote("123456"), "123456".to_string());
}

#[test]
fn str_eq_compares_by_characters() {
    assert!(str_eq("install", "install"));
    assert!(!str_eq("install", "installs"));
    assert!(!str_eq("install", "pairing"));
    assert!(str_eq("", ""));
}

#[test]
fn registry_selection_is_last_write_wins() {
    let mut reg = DeviceRegistry::new();
    assert!(reg.get().is_none());
    reg.set(DeviceInfo { name: "A".to_string(), id: 1, uuid: "u-a".to_string() });
    reg.set(DeviceInfo { name: "B".to_string(), id: 2, uuid: "u-b".to_string() });
    let got = reg.get().unwrap();
    assert_eq!(got.name, "B");
    assert_eq!(got.id, 2);
    assert_eq!(got.uuid, "u-b");
}

#[test]
fn described_device_falls_back_to_a_placeholder_name() {
    let named = describe_device("u-1".to_string(), 3, Some("My Phone".to_string()));
    assert_eq!(named.name, "My Phone");
    assert_eq!(named.id, 3);
    assert_eq!(named.uuid, "u-1");
    let unnamed = describe_device("u-2".to_string(), 4, None);
    assert_eq!(unnamed.name, "Unknown Device");
    assert_eq!(unnamed.uuid, "u-2");
}

#[test]
fn lookup_uses_the_persistent_id_only() {
    let devices = vec![
        DeviceInfo { name: "A".to_string(), id: 10, uuid: "u-a".to_string() },
        DeviceInfo { name: "B".to_string(), id: 20, uuid: "u-b".to_string() },
    ];
    assert_eq!(find_by_uuid(&devices, "u-b"), Some(1));
    assert_eq!(find_by_uuid(&devices, "u-a"), Some(0));
    // the transient numeric id is no lookup key
    assert_eq!(find_by_uuid(&devices, "20"), None);
    assert_eq!(
        DeviceError::NotSelected.message(),
        "No device selected".to_string()
    );
    assert_eq!(
        DeviceError::NotFound.message(),
        "Failed to get device".to_string()
    );
    assert_eq!(
        DeviceError::ConnectionFailed.message(),
        "Failed to connect to usbmuxd".to_string()
    );
}

#[test]
fn account_store_caches_and_invalidates() {
    let mut store = AccountStore::new();
    assert_eq!(store.logged_in_as(), None);
    assert_eq!(store.get_account().err(), Some(AuthenticationError::NotLoggedIn));
    assert_eq!(
        AuthenticationError::NotLoggedIn.message(),
        "Not logged in".to_string()
    );
    store.set_account(Account { apple_id: "dev@example.com".to_string() });
    assert_eq!(store.logged_in_as(), Some("dev@example.com".to_string()));
    assert_eq!(store.get_account().unwrap().apple_id, "dev@example.com");
    store.invalidate();
    assert_eq!(store.logged_in_as(), None);
}

#[test]
fn only_the_expired_code_drops_the_cached_account() {
    let mut store = AccountStore::new();
    store.set_account(Account { apple_id: "dev@example.com".to_string() });
    assert!(!store.recover_if_expired(-1));
    assert_eq!(store.logged_in_as(), Some("dev@example.com".to_string()));
    assert!(store.recover_if_expired(SESSION_EXPIRED_CODE));
    assert_eq!(store.logged_in_as(), None);
    assert_eq!(SESSION_EXPIRED_CODE, -22411);
    assert_eq!(
        AuthenticationError::SessionExpired.message(),
        "Session timed out, please try again".to_string()
    );
}

#[test]
fn the_first_team_is_chosen() {
    let teams: Vec<String> = vec!["Team One".to_string(), "Team Two".to_string()];
    assert_eq!(choose_team(&teams), Some(&"Team One".to_string()));
    let none: Vec<String> = Vec::new();
    assert_eq!(choose_team(&none), None);
}

#[test]
fn stored_ids_are_deduplicated_and_removable() {
    let mut ids: Vec<String> = Vec::new();
    remember_id(&mut ids, &"a@example.com".to_string());
    remember_id(&mut ids, &"b@example.com".to_string());
    remember_id(&mut ids, &"a@example.com".to_string());
    assert_eq!(ids, vec!["a@example.com".to_string(), "b@example.com".to_string()]);
    forget_id(&mut ids, "a@example.com");
    assert_eq!(ids, vec!["b@example.com".to_string()]);
    forget_id(&mut ids, "missing@example.com");
    assert_eq!(ids, vec!["b@example.com".to_string()]);
}

#[test]
fn transport_success_is_exactly_the_2xx_range() {
    assert!(transport_ok(200));
    assert!(transport_ok(204));
    assert!(transport_ok(299));
    assert!(!transport_ok(199));
    assert!(!transport_ok(300));
    assert!(!transport_ok(404));
    assert!(!transport_ok(500));
}
