use keystache_routes::nostr_keypairs::{Subroute, SubrouteName};
use keystache_routes::routes::{Command, KeystacheMessage, Nip46RequestApproval, Route, RouteName};

type Msg = KeystacheMessage<u32, &'static str>;
type R = Route<u32, &'static str>;

const VALID_HEX: &str = "6b911fd37cdf5c81d4c0adb1ab7fa822ed253ab0ad9aa18d77257c88b29b718e";

fn home() -> R {
    let mut route = R::new_locked(true);
    route.update(Msg::DbOpened(7));
    route
}

fn add_form() -> R {
    let mut route = home();
    route.update(Msg::Navigate(RouteName::NostrKeypairs(SubrouteName::Add)));
    route
}

fn queue(route: &R) -> Vec<&'static str> {
    match route.get_connected_state() {
        Some(c) => c.in_flight_nip46_requests.iter().copied().collect(),
        None => Vec::new(),
    }
}

fn add_has_keypair(route: &R) -> bool {
    match route {
        Route::NostrKeypairs(p) => match &p.subroute {
            Subroute::Add(a) => a.keypair_or.is_some(),
            Subroute::List(_) => panic!("not on the add form"),
        },
        _ => panic!("not on the keypair screen"),
    }
}

#[test]
fn unlock_with_new_store_goes_home_with_empty_queue() {
    let mut route = R::new_locked(false);
    assert!(matches!(route.update(Msg::UnlockPasswordInputChanged("correct".to_string())), Command::Nothing));
    match route.update(Msg::UnlockPasswordSubmitted) {
        Command::OpenOrCreateDb(p) => assert_eq!(p, "correct"),
        _ => panic!("expected the store to be opened"),
    }
    assert_eq!(route.to_name(), RouteName::Unlock);
    assert!(matches!(route.update(Msg::DbOpened(1)), Command::Nothing));
    assert_eq!(route.to_name(), RouteName::Home);
    assert_eq!(route.get_connected_state().unwrap().db, 1);
    assert!(queue(&route).is_empty());
}

#[test]
fn two_requests_resolve_in_arrival_order() {
    let mut route = home();
    route.update(Msg::IncomingNip46Request("A"));
    route.update(Msg::IncomingNip46Request("B"));
    assert_eq!(queue(&route), vec!["A", "B"]);
    match route.update(Msg::ApproveFirstIncomingNip46Request) {
        Command::Respond(req, decision) => {
            assert_eq!(req, "A");
            assert_eq!(decision, Nip46RequestApproval::Approve);
        }
        _ => panic!("expected a response"),
    }
    assert_eq!(queue(&route), vec!["B"]);
    match route.update(Msg::RejectFirstIncomingNip46Request) {
        Command::Respond(req, decision) => {
            assert_eq!(req, "B");
            assert_eq!(decision, Nip46RequestApproval::Reject);
        }
        _ => panic!("expected a response"),
    }
    assert!(queue(&route).is_empty());
}

#[test]
fn valid_secret_key_enables_save_and_one_changed_char_disables_it() {
    let mut route = add_form();
    assert!(!add_has_keypair(&route));
    assert!(matches!(route.update(Msg::SaveKeypair), Command::Nothing));
    route.update(Msg::SaveKeypairNsecInputChanged(VALID_HEX.to_string()));
    assert!(add_has_keypair(&route));
    assert!(matches!(route.update(Msg::SaveKeypair), Command::SaveKeypair(_)));
    let mut changed = VALID_HEX.to_string();
    changed.replace_range(0..1, "z");
    route.update(Msg::SaveKeypairNsecInputChanged(changed));
    assert!(!add_has_keypair(&route));
    assert!(matches!(route.update(Msg::SaveKeypair), Command::Nothing));
}

#[test]
fn same_secret_key_text_twice_gives_same_keypair() {
    let mut route = add_form();
    route.update(Msg::SaveKeypairNsecInputChanged(VALID_HEX.to_string()));
    let first = match &route {
        Route::NostrKeypairs(p) => match &p.subroute {
            Subroute::Add(a) => a.keypair_or.clone(),
            Subroute::List(_) => None,
        },
        _ => None,
    };
    route.update(Msg::SaveKeypairNsecInputChanged(VALID_HEX.to_string()));
    let second = match &route {
        Route::NostrKeypairs(p) => match &p.subroute {
            Subroute::Add(a) => a.keypair_or.clone(),
            Subroute::List(_) => None,
        },
        _ => None,
    };
    assert!(first.is_some());
    assert_eq!(first, second);
}

#[test]
fn garbage_secret_key_text_gives_no_keypair() {
    let mut route = add_form();
    route.update(Msg::SaveKeypairNsecInputChanged("not a key".to_string()));
    assert!(!add_has_keypair(&route));
    route.update(Msg::SaveKeypairNsecInputChanged(String::new()));
    assert!(!add_has_keypair(&route));
}

#[test]
fn navigate_home_while_locked_stays_locked() {
    let mut route = R::new_locked(false);
    assert!(matches!(
        route.update(Msg::Navigate(RouteName::Home)),
        Command::NavigationRefused(RouteName::Home)
    ));
    assert_eq!(route.to_name(), RouteName::Unlock);
    route.update(Msg::Navigate(RouteName::NostrKeypairs(SubrouteName::List)));
    assert_eq!(route.to_name(), RouteName::Unlock);
    assert!(route.get_connected_state().is_none());
}

#[test]
fn navigation_keeps_session_and_queue() {
    let mut route = home();
    route.update(Msg::IncomingNip46Request("A"));
    for target in [
        RouteName::NostrRelays,
        RouteName::BitcoinWallet,
        RouteName::Settings,
        RouteName::NostrKeypairs(SubrouteName::List),
        RouteName::Home,
    ] {
        assert!(matches!(route.update(Msg::Navigate(target)), Command::Nothing));
        assert_eq!(route.to_name(), target);
        assert_eq!(route.get_connected_state().unwrap().db, 7);
        assert_eq!(queue(&route), vec!["A"]);
    }
}

#[test]
fn navigating_away_from_add_form_discards_input() {
    let mut route = add_form();
    route.update(Msg::SaveKeypairNsecInputChanged(VALID_HEX.to_string()));
    route.update(Msg::Navigate(RouteName::NostrKeypairs(SubrouteName::List)));
    route.update(Msg::Navigate(RouteName::NostrKeypairs(SubrouteName::Add)));
    assert!(!add_has_keypair(&route));
}

#[test]
fn relock_drops_session_and_pending_requests() {
    let mut route = home();
    route.update(Msg::IncomingNip46Request("A"));
    assert!(matches!(route.update(Msg::Navigate(RouteName::Unlock)), Command::CheckDbExists));
    assert_eq!(route.to_name(), RouteName::Unlock);
    assert!(route.get_connected_state().is_none());
    assert!(matches!(route.update(Msg::ApproveFirstIncomingNip46Request), Command::Nothing));
    route.update(Msg::DbOpened(8));
    assert!(queue(&route).is_empty());
    assert!(matches!(route.update(Msg::RejectFirstIncomingNip46Request), Command::Nothing));
}

#[test]
fn resolving_empty_queue_is_a_no_op() {
    let mut route = home();
    assert!(matches!(route.update(Msg::ApproveFirstIncomingNip46Request), Command::Nothing));
    assert!(matches!(route.update(Msg::RejectFirstIncomingNip46Request), Command::Nothing));
    assert_eq!(route.to_name(), RouteName::Home);
    assert!(queue(&route).is_empty());
}

#[test]
fn requests_while_locked_are_dropped() {
    let mut route = R::new_locked(true);
    assert!(matches!(route.update(Msg::IncomingNip46Request("A")), Command::Nothing));
    route.update(Msg::DbOpened(3));
    assert!(queue(&route).is_empty());
}

#[test]
fn unlock_screen_local_events() {
    let mut route = R::new_locked(true);
    match &route {
        Route::Unlock(u) => {
            assert!(u.password.is_empty());
            assert!(u.is_secure);
            assert!(u.db_already_exists);
        }
        _ => panic!("expected the unlock screen"),
    }
    route.update(Msg::UnlockToggleSecureInput);
    assert!(matches!(route.update(Msg::DbDeleteAllData), Command::DeleteDb));
    match &route {
        Route::Unlock(u) => {
            assert!(!u.is_secure);
            assert!(!u.db_already_exists);
        }
        _ => panic!("expected the unlock screen"),
    }
    route.update(Msg::DbExistenceChecked(true));
    match &route {
        Route::Unlock(u) => assert!(u.db_already_exists),
        _ => panic!("expected the unlock screen"),
    }
}

#[test]
fn unlock_events_elsewhere_are_ignored() {
    let mut route = home();
    assert!(matches!(route.update(Msg::UnlockPasswordSubmitted), Command::Nothing));
    assert!(matches!(route.update(Msg::DbDeleteAllData), Command::Nothing));
    route.update(Msg::DbOpened(9));
    assert_eq!(route.get_connected_state().unwrap().db, 7);
    assert_eq!(route.to_name(), RouteName::Home);
}

#[test]
fn top_level_route_families() {
    let list = RouteName::NostrKeypairs(SubrouteName::List);
    let add = RouteName::NostrKeypairs(SubrouteName::Add);
    assert!(list.is_same_top_level_route_as(add));
    assert!(add.is_same_top_level_route_as(list));
    assert!(RouteName::Home.is_same_top_level_route_as(RouteName::Home));
    assert!(!RouteName::Home.is_same_top_level_route_as(RouteName::Settings));
    assert!(!list.is_same_top_level_route_as(RouteName::Home));
    assert!(!RouteName::Unlock.is_same_top_level_route_as(RouteName::Home));
}

#[test]
fn save_carries_keys_derived_from_secret_key_text() {
    let mut route = add_form();
    route.update(Msg::SaveKeypairNsecInputChanged(
        "0000000000000000000000000000000000000000000000000000000000000001".to_string(),
    ));
    match route.update(Msg::SaveKeypair) {
        Command::SaveKeypair(keys) => assert_eq!(
            keys.public_key().to_hex(),
            "79be667ef9dcbbac55a06295ce870b07029bfcdb2dce28d959f2815b16f81798"
        ),
        _ => panic!("expected the keypair to be saved"),
    }
    route.update(Msg::SaveKeypairNsecInputChanged(
        "0000000000000000000000000000000000000000000000000000000000000000".to_string(),
    ));
    assert!(!add_has_keypair(&route));
}

#[test]
fn generated_keypair_is_saved_only_from_add_form() {
    let keys = nostr::key::Keys::parse(VALID_HEX).unwrap();
    let mut route = add_form();
    match route.update(Msg::SaveGeneratedKeypair(keys.clone())) {
        Command::SaveKeypair(saved) => assert_eq!(saved, keys),
        _ => panic!("expected the keypair to be saved"),
    }
    assert!(!add_has_keypair(&route));
    let mut route = home();
    assert!(matches!(route.update(Msg::SaveGeneratedKeypair(keys)), Command::Nothing));
}
