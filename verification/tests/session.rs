use std::collections::HashMap;

use dws::admin::cosmetics::{add_cosmetic, AddCosmetic};
use dws::api::ws::{
    check_cosmetics, deliver_to, relay_request, route, update_cosmetics, wants_relay,
    CosmeticsError, Routed, Session, SessionState, MAX_BULK_LOOKUP,
};
use dws::app_state::{Cosmetic, User};
use dws::bitflags::CosmeticFlags;
use dws::limiter::Limiter;
use dws::messages::{decoded_or_error, InternalMessages, Messages};

const A: u128 = 0xa;
const B: u128 = 0xb;
const C: u128 = 0xc;

fn flags(bits: u32) -> CosmeticFlags {
    CosmeticFlags::from_bits(bits).unwrap()
}

fn catalog() -> Vec<Cosmetic> {
    let mut catalog = Vec::new();
    add_cosmetic(
        &mut catalog,
        AddCosmetic {
            id: 1,
            name: "dev".to_owned(),
            description: String::new(),
            data: "&c".to_owned(),
            type_field: 0,
            required_flags: flags(CosmeticFlags::DEVELOPER),
        },
    );
    add_cosmetic(
        &mut catalog,
        AddCosmetic {
            id: 2,
            name: "staff".to_owned(),
            description: String::new(),
            data: "&b".to_owned(),
            type_field: 0,
            required_flags: flags(CosmeticFlags::STAFF),
        },
    );
    catalog
}

fn users_with(id: u128, user: User) -> HashMap<u128, User> {
    let mut users = HashMap::new();
    users.insert(id, user);
    users
}

fn live(id: u128, users: &mut HashMap<u128, User>) -> Session {
    let mut session = Session::new(1000).unwrap();
    let ack = session.authenticate(users, id);
    assert_eq!(ack, Some(Messages::ConnectedResponse(true)));
    session
}

fn nonce(text: &str) -> Option<String> {
    Some(text.to_owned())
}

#[test]
fn staff_cannot_wear_a_developer_cosmetic() {
    let mut users = users_with(A, User { flags: flags(CosmeticFlags::STAFF), ..User::default() });
    let before = users.clone();
    let reply = update_cosmetics(&mut users, &catalog(), A, Some(1), nonce("n1"));
    assert_eq!(
        reply,
        InternalMessages::UserError {
            requester_id: A,
            error: "You dont have this cosmetics".to_owned(),
            nonce: nonce("n1"),
        }
    );
    assert_eq!(users, before);
    assert_eq!(check_cosmetics(&users, &catalog(), A, Some(1)), Err(CosmeticsError::NotEntitled));
    assert_eq!(CosmeticsError::NotEntitled.message(), "You dont have this cosmetics");
    assert_eq!(
        deliver_to(A, reply.clone()),
        Some(Messages::Error { error: "You dont have this cosmetics".to_owned(), nonce: nonce("n1") })
    );
    assert_eq!(deliver_to(B, reply), None);
}

#[test]
fn cosmetics_update_without_a_record_is_an_error() {
    let mut users: HashMap<u128, User> = HashMap::new();
    let reply = update_cosmetics(&mut users, &catalog(), A, None, None);
    assert_eq!(
        reply,
        InternalMessages::UserError {
            requester_id: A,
            error: "You dont have any cosmetcs".to_owned(),
            nonce: None,
        }
    );
    assert!(users.is_empty());
}

#[test]
fn cosmetics_update_for_an_unknown_cosmetic_is_an_error() {
    let mut users = users_with(A, User { flags: flags(255), ..User::default() });
    let reply = update_cosmetics(&mut users, &catalog(), A, Some(9), nonce("x"));
    assert_eq!(
        reply,
        InternalMessages::UserError {
            requester_id: A,
            error: "Cosmetic not found".to_owned(),
            nonce: nonce("x"),
        }
    );
    assert_eq!(users[&A].enabled_prefix, None);
}

#[test]
fn cosmetics_update_twice_is_acknowledged_twice() {
    let mut users = users_with(A, User { flags: flags(CosmeticFlags::STAFF), ..User::default() });
    let expected =
        InternalMessages::CosmeticsUpdate { requester_id: A, cosmetic_id: Some(2), nonce: None };
    assert_eq!(update_cosmetics(&mut users, &catalog(), A, Some(2), None), expected);
    let once = users.clone();
    assert_eq!(once[&A].enabled_prefix, Some(2));
    assert_eq!(update_cosmetics(&mut users, &catalog(), A, Some(2), None), expected);
    assert_eq!(users, once);
}

#[test]
fn clearing_the_cosmetic_needs_no_entitlement() {
    let mut users = users_with(A, User { enabled_prefix: Some(2), ..User::default() });
    let reply = update_cosmetics(&mut users, &catalog(), A, None, nonce("c"));
    assert_eq!(
        reply,
        InternalMessages::CosmeticsUpdate { requester_id: A, cosmetic_id: None, nonce: nonce("c") }
    );
    assert_eq!(users[&A].enabled_prefix, None);
}

#[test]
fn cosmetics_update_reaches_requester_and_others_differently() {
    let update =
        InternalMessages::CosmeticsUpdate { requester_id: A, cosmetic_id: Some(2), nonce: nonce("n") };
    assert_eq!(
        deliver_to(A, update.clone()),
        Some(Messages::CosmeticsUpdated { cosmetic_id: Some(2), nonce: nonce("n") })
    );
    assert_eq!(deliver_to(B, update), Some(Messages::CosmeticAck));
}

#[test]
fn addressed_envelopes_reach_only_their_requester() {
    let pong = InternalMessages::Pong { nonce: nonce("p"), uuid: A };
    assert_eq!(deliver_to(A, pong.clone()), Some(Messages::Pong(nonce("p"))));
    assert_eq!(deliver_to(B, pong), None);
    let invalid = InternalMessages::UserInvalidJson { requester_id: A, error: "bad".to_owned() };
    assert_eq!(
        deliver_to(A, invalid.clone()),
        Some(Messages::Error { error: "bad".to_owned(), nonce: None })
    );
    assert_eq!(deliver_to(B, invalid), None);
    let single = InternalMessages::UserRequestResponse {
        requester_id: A,
        is_online: true,
        user_id: C,
        nonce: None,
    };
    assert_eq!(
        deliver_to(A, single.clone()),
        Some(Messages::IsOnlineResponse { is_online: true, uuid: C, nonce: None })
    );
    assert_eq!(deliver_to(B, single), None);
    let request = InternalMessages::RequestUser { user_id: C, requester_id: A, nonce: None };
    assert_eq!(deliver_to(A, request), None);
    let chat = InternalMessages::IrcCreate { message: "hi".to_owned(), sender: A, date: 1 };
    assert_eq!(deliver_to(A, chat), None);
    let shown = InternalMessages::IrcCreated { message: "hi".to_owned(), sender: A, date: 1 };
    assert_eq!(
        deliver_to(B, shown),
        Some(Messages::IrcCreated { message: "hi".to_owned(), sender: A, date: 1 })
    );
}

#[test]
fn broadcast_to_a_set_reaches_its_members() {
    let to_b = InternalMessages::BroadCastMessage { message: "psst".to_owned(), to: vec![B, C] };
    assert_eq!(deliver_to(A, to_b.clone()), None);
    assert_eq!(deliver_to(B, to_b), Some(Messages::Broadcast("psst".to_owned())));
}

#[test]
fn broadcast_to_all_reaches_every_subscriber() {
    let (tx, _keep) = tokio::sync::broadcast::channel::<InternalMessages>(100);
    let mut users: HashMap<u128, User> = HashMap::new();
    let a = live(A, &mut users);
    let b = live(B, &mut users);
    let mut rx_a = tx.subscribe();
    let mut rx_b = tx.subscribe();
    tx.send(InternalMessages::BroadCastMessage { message: "hello".to_owned(), to: vec![] }).unwrap();
    let at_a = a.deliver(rx_a.try_recv().unwrap());
    let at_b = b.deliver(rx_b.try_recv().unwrap());
    assert_eq!(at_a, Some(Messages::Broadcast("hello".to_owned())));
    assert_eq!(at_b, Some(Messages::Broadcast("hello".to_owned())));
    assert!(rx_a.try_recv().is_err());
    assert!(rx_b.try_recv().is_err());
    let never = Session::new(1000).unwrap();
    assert_eq!(
        never.deliver(InternalMessages::BroadCastMessage { message: "hello".to_owned(), to: vec![] }),
        None
    );
}

#[test]
fn nothing_is_delivered_before_the_handshake() {
    let mut users: HashMap<u128, User> = HashMap::new();
    let mut session = Session::new(10).unwrap();
    assert_eq!(session.state(), SessionState::Handshaking);
    assert_eq!(session.identity(), None);
    let hello = InternalMessages::BroadCastMessage { message: "hello".to_owned(), to: vec![] };
    assert_eq!(session.deliver(hello.clone()), None);
    assert_eq!(session.receive(&mut users, &catalog(), Messages::Ping(None)), None);
    assert_eq!(session.handshake_frame(Messages::Ping(None)), None);
    assert_eq!(
        session.handshake_frame(Messages::Connect {
            server_id: "srv".to_owned(),
            username: "Steve".to_owned()
        }),
        Some(("srv".to_owned(), "Steve".to_owned()))
    );
    assert_eq!(session.authenticate(&mut users, A), Some(Messages::ConnectedResponse(true)));
    assert_eq!(session.state(), SessionState::Authenticated);
    assert_eq!(session.identity(), Some(A));
    assert_eq!(session.deliver(hello), Some(Messages::Broadcast("hello".to_owned())));
    assert_eq!(session.authenticate(&mut users, B), None);
    assert_eq!(session.identity(), Some(A));
    assert_eq!(
        session.handshake_frame(Messages::Connect {
            server_id: "srv".to_owned(),
            username: "Steve".to_owned()
        }),
        None
    );
}

#[test]
fn session_without_a_quota_does_not_exist() {
    assert!(Session::new(0).is_none());
    assert!(Session::new(1).is_some());
    assert!(Session::new(u32::MAX).is_some());
}

#[test]
fn limiter_needs_a_quota_that_fits() {
    assert!(Limiter::new(0, 1).is_none());
    assert!(Limiter::new(1, 0).is_none());
    assert!(Limiter::new(4, 8).is_some());
    assert!(Limiter::new(1, u32::MAX).is_none());
    assert!(Limiter::new(1, 153_722_867).is_some());
    assert!(Limiter::new(1, 153_722_868).is_none());
    assert!(Limiter::new(u32::MAX, u32::MAX).is_some());
    let limiter = Limiter::new(60, 2).unwrap();
    assert!(limiter.check());
    assert!(limiter.check());
    assert!(!limiter.check());
}

#[test]
fn handshake_marks_the_record_connected_and_close_clears_it() {
    let mut users = users_with(A, User::default());
    let mut session = live(A, &mut users);
    assert!(users[&A].connected);
    session.terminate();
    assert_eq!(session.state(), SessionState::Terminating);
    assert_eq!(session.identity(), Some(A));
    assert_eq!(session.deliver(InternalMessages::Pong { nonce: None, uuid: A }), None);
    assert_eq!(session.receive(&mut users, &catalog(), Messages::Ping(None)), None);
    session.close(&mut users);
    assert_eq!(session.state(), SessionState::Closed);
    assert!(!users[&A].connected);
    users.get_mut(&A).unwrap().connected = true;
    session.close(&mut users);
    assert!(users[&A].connected);
}

#[test]
fn closing_a_handshake_touches_nothing() {
    let mut users = users_with(A, User { connected: true, ..User::default() });
    let mut session = Session::new(10).unwrap();
    session.terminate();
    assert_eq!(session.state(), SessionState::Handshaking);
    session.close(&mut users);
    assert_eq!(session.state(), SessionState::Closed);
    assert_eq!(session.identity(), None);
    assert!(users[&A].connected);
    assert_eq!(session.authenticate(&mut users, A), None);
}

#[test]
fn second_connect_is_an_error_not_a_disconnect() {
    let mut users: HashMap<u128, User> = HashMap::new();
    let session = live(A, &mut users);
    let published = session.receive(
        &mut users,
        &catalog(),
        Messages::Connect { server_id: "s".to_owned(), username: "u".to_owned() },
    );
    assert_eq!(
        published,
        Some(InternalMessages::UserInvalidJson {
            requester_id: A,
            error: "Already connected".to_owned()
        })
    );
    assert_eq!(session.state(), SessionState::Authenticated);
}

#[test]
fn requests_are_published_with_requester_and_nonce() {
    let mut users: HashMap<u128, User> = HashMap::new();
    let none = catalog();
    assert_eq!(
        route(A, &mut users, &none, Messages::IsOnline { uuid: B, nonce: nonce("1") }),
        Routed::Publish(InternalMessages::RequestUser {
            user_id: B,
            requester_id: A,
            nonce: nonce("1")
        })
    );
    assert_eq!(
        route(A, &mut users, &none, Messages::IsOnlineBulk { uuids: vec![B, C], nonce: None }),
        Routed::Publish(InternalMessages::RequestUsersBulk {
            user_ids: vec![B, C],
            requester_id: A,
            nonce: None
        })
    );
    assert_eq!(
        route(A, &mut users, &none, Messages::Ping(nonce("p"))),
        Routed::Publish(InternalMessages::Pong { nonce: nonce("p"), uuid: A })
    );
    assert_eq!(
        route(A, &mut users, &none, Messages::Error { error: "oops".to_owned(), nonce: None }),
        Routed::Publish(InternalMessages::UserInvalidJson {
            requester_id: A,
            error: "oops".to_owned()
        })
    );
    assert_eq!(route(A, &mut users, &none, Messages::CosmeticAck), Routed::Nothing);
    assert_eq!(route(A, &mut users, &none, Messages::Pong(None)), Routed::Nothing);
    assert_eq!(
        route(A, &mut users, &none, Messages::IrcCreate { message: "yo".to_owned() }),
        Routed::Chat("yo".to_owned())
    );
}

#[test]
fn bulk_request_over_the_cap_is_refused() {
    let mut users: HashMap<u128, User> = HashMap::new();
    let at_cap: Vec<u128> = (0..MAX_BULK_LOOKUP as u128).collect();
    let over: Vec<u128> = (0..MAX_BULK_LOOKUP as u128 + 1).collect();
    assert_eq!(
        route(A, &mut users, &catalog(), Messages::IsOnlineBulk { uuids: at_cap.clone(), nonce: None }),
        Routed::Publish(InternalMessages::RequestUsersBulk {
            user_ids: at_cap,
            requester_id: A,
            nonce: None
        })
    );
    assert_eq!(
        route(A, &mut users, &catalog(), Messages::IsOnlineBulk { uuids: over, nonce: nonce("b") }),
        Routed::Publish(InternalMessages::UserError {
            requester_id: A,
            error: "Too many uuids".to_owned(),
            nonce: nonce("b")
        })
    );
}

#[test]
fn blacklisted_chat_is_dropped_before_the_relay_limiter() {
    let mut users = users_with(A, User { irc_blacklisted: true, ..User::default() });
    assert_eq!(
        route(A, &mut users, &catalog(), Messages::IrcCreate { message: "hi".to_owned() }),
        Routed::Nothing
    );
    let session = live(A, &mut users);
    for _ in 0..25 {
        assert_eq!(
            session.receive(&mut users, &catalog(), Messages::IrcCreate { message: "hi".to_owned() }),
            None
        );
    }
    users.get_mut(&A).unwrap().irc_blacklisted = false;
    let relayed =
        session.receive(&mut users, &catalog(), Messages::IrcCreate { message: "hi".to_owned() });
    assert!(matches!(relayed, Some(InternalMessages::IrcCreate { .. })));
}

#[test]
fn relay_limiter_lets_through_one_burst() {
    let mut users: HashMap<u128, User> = HashMap::new();
    let session = live(A, &mut users);
    let mut relayed = 0;
    for _ in 0..25 {
        match session.receive(&mut users, &catalog(), Messages::IrcCreate { message: "hi".to_owned() })
        {
            Some(InternalMessages::IrcCreate { message, sender, .. }) => {
                assert_eq!(message, "hi");
                assert_eq!(sender, A);
                relayed += 1;
            }
            Some(other) => panic!("unexpected envelope {:?}", other),
            None => {}
        }
    }
    assert!(relayed <= 8);
    assert!(relayed >= 1);
    assert_eq!(
        session.receive(&mut users, &catalog(), Messages::Ping(None)),
        Some(InternalMessages::Pong { nonce: None, uuid: A })
    );
}

#[test]
fn general_limiter_drops_silently() {
    let mut users: HashMap<u128, User> = HashMap::new();
    let mut session = Session::new(3).unwrap();
    session.authenticate(&mut users, A);
    let mut answered = 0;
    for _ in 0..10 {
        if session.receive(&mut users, &catalog(), Messages::Ping(None)).is_some() {
            answered += 1;
        }
    }
    assert!(answered <= 3);
    assert!(answered >= 1);
    assert_eq!(session.state(), SessionState::Authenticated);
}

#[test]
fn relay_request_carries_the_sanitized_line() {
    assert_eq!(
        relay_request(A, "he`llo", 42),
        InternalMessages::IrcCreate { message: "hello".to_owned(), sender: A, date: 42 }
    );
}

#[test]
fn undecodable_frame_becomes_an_error_message() {
    assert_eq!(decoded_or_error(Ok(Messages::CosmeticAck)), Messages::CosmeticAck);
    assert_eq!(
        decoded_or_error(Err("expected value at line 1".to_owned())),
        Messages::Error { error: "expected value at line 1".to_owned(), nonce: None }
    );
}

#[test]
fn process_follows_the_answers_it_is_given() {
    let mut users: HashMap<u128, User> = HashMap::new();
    let session = live(A, &mut users);
    let chat = Messages::IrcCreate { message: "he`llo".to_owned() };
    assert_eq!(
        session.process(&mut users, &catalog(), chat.clone(), true, true, 42),
        Some(InternalMessages::IrcCreate { message: "hello".to_owned(), sender: A, date: 42 })
    );
    assert_eq!(session.process(&mut users, &catalog(), chat.clone(), true, false, 42), None);
    assert_eq!(session.process(&mut users, &catalog(), chat.clone(), false, true, 42), None);
    assert_eq!(
        session.process(&mut users, &catalog(), Messages::Ping(nonce("p")), true, false, 0),
        Some(InternalMessages::Pong { nonce: nonce("p"), uuid: A })
    );
    assert_eq!(
        session.process(&mut users, &catalog(), Messages::Ping(nonce("p")), false, true, 0),
        None
    );
    users.insert(A, User { irc_blacklisted: true, ..User::default() });
    assert_eq!(session.process(&mut users, &catalog(), chat, true, true, 42), None);
}

#[test]
fn process_changes_the_store_only_when_admitted() {
    let mut users = users_with(A, User { flags: flags(CosmeticFlags::STAFF), ..User::default() });
    let mut session = Session::new(1000).unwrap();
    let update = Messages::CosmeticsUpdate { cosmetic_id: Some(2), nonce: None };
    assert_eq!(session.process(&mut users, &catalog(), update.clone(), true, true, 0), None);
    assert_eq!(users[&A].enabled_prefix, None);
    session.authenticate(&mut users, A);
    assert_eq!(session.process(&mut users, &catalog(), update.clone(), false, true, 0), None);
    assert_eq!(users[&A].enabled_prefix, None);
    assert_eq!(
        session.process(&mut users, &catalog(), update, true, false, 0),
        Some(InternalMessages::CosmeticsUpdate { requester_id: A, cosmetic_id: Some(2), nonce: None })
    );
    assert_eq!(users[&A].enabled_prefix, Some(2));
}

#[test]
fn only_unbarred_chat_is_put_to_the_relay_limiter() {
    let mut users: HashMap<u128, User> = HashMap::new();
    let chat = Messages::IrcCreate { message: "hi".to_owned() };
    assert!(wants_relay(&users, A, &chat));
    assert!(!wants_relay(&users, A, &Messages::Ping(None)));
    users.insert(A, User { irc_blacklisted: true, ..User::default() });
    assert!(!wants_relay(&users, A, &chat));
    assert!(wants_relay(&users, B, &chat));
}
