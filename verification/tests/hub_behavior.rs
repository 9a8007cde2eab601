//! Behavior of the registry, mailboxes, and fan-out.

use mission_hub::envelope::Envelope;
use mission_hub::fanout::{deliver_snapshot, send_to_all, send_to_room, send_to_user};
use mission_hub::mailbox::{EnqueueResult, Mailbox};
use mission_hub::registry::{ConnectionRegistry, TransmitPoll};

fn env(event_type: &str, payload: &str) -> Envelope {
    Envelope::new(event_type.to_string(), payload.to_string())
}

fn take_frame(registry: &mut ConnectionRegistry, id: u64) -> Envelope {
    match registry.poll_transmit(id) {
        TransmitPoll::Frame(e) => e,
        other => panic!("expected a frame, got {:?}", other),
    }
}

fn assert_idle(registry: &mut ConnectionRegistry, id: u64) {
    match registry.poll_transmit(id) {
        TransmitPoll::Idle => {}
        other => panic!("expected idle, got {:?}", other),
    }
}

#[test]
fn registered_id_resolves_until_deregistered() {
    let mut registry = ConnectionRegistry::new();
    let id = registry.register_room(42, Mailbox::new(8));
    assert!(registry.contains(id));
    registry.deregister(id);
    assert!(!registry.contains(id));
    // deregistration is idempotent
    registry.deregister(id);
    assert!(!registry.contains(id));
}

#[test]
fn connection_ids_are_never_reused() {
    let mut registry = ConnectionRegistry::new();
    let a = registry.register_room(1, Mailbox::new(8));
    registry.deregister(a);
    let b = registry.register_room(1, Mailbox::new(8));
    let c = registry.register_user(7, Mailbox::new(8));
    assert_ne!(a, b);
    assert_ne!(a, c);
    assert_ne!(b, c);
    assert!(!registry.contains(a));
}

#[test]
fn room_and_user_address_spaces_are_disjoint() {
    let mut registry = ConnectionRegistry::new();
    let room_conn = registry.register_room(5, Mailbox::new(8));
    let user_conn = registry.register_user(5, Mailbox::new(8));
    let in_room = registry.connections_in_room(5);
    let for_user = registry.connections_for_user(5);
    assert!(in_room.contains(&room_conn));
    assert!(!in_room.contains(&user_conn));
    assert!(for_user.contains(&user_conn));
    assert!(!for_user.contains(&room_conn));
}

#[test]
fn lookups_for_unknown_keys_yield_empty_sets() {
    let mut registry = ConnectionRegistry::new();
    registry.register_room(1, Mailbox::new(8));
    assert!(registry.connections_in_room(999).is_empty());
    assert!(registry.connections_for_user(999).is_empty());
}

#[test]
fn all_room_connections_flattens_every_room() {
    let mut registry = ConnectionRegistry::new();
    let a = registry.register_room(1, Mailbox::new(8));
    let b = registry.register_room(2, Mailbox::new(8));
    let u = registry.register_user(3, Mailbox::new(8));
    let all = registry.all_room_connections();
    assert!(all.contains(&a));
    assert!(all.contains(&b));
    assert!(!all.contains(&u));
    assert_eq!(all.len(), 2);
}

#[test]
fn room_broadcast_reaches_each_room_viewer_exactly_once() {
    // two connections register to room 42; a third watches another room
    let mut registry = ConnectionRegistry::new();
    let a = registry.register_room(42, Mailbox::new(8));
    let b = registry.register_room(42, Mailbox::new(8));
    let elsewhere = registry.register_room(7, Mailbox::new(8));

    let message = env("new_comment", "{\"content\":\"hi\"}");
    send_to_room(&mut registry, 42, &message);

    for id in [a, b] {
        let got = take_frame(&mut registry, id);
        assert_eq!(got, env("new_comment", "{\"content\":\"hi\"}"));
        assert_idle(&mut registry, id);
    }
    assert_idle(&mut registry, elsewhere);
}

#[test]
fn directed_delivery_without_connections_is_a_silent_no_op() {
    let mut registry = ConnectionRegistry::new();
    let bystander = registry.register_room(1, Mailbox::new(8));
    send_to_user(&mut registry, 99, &env("mission_started", "{}"));
    assert!(registry.contains(bystander));
    assert_eq!(registry.mailbox_len(bystander), Some(0));
}

#[test]
fn directed_delivery_reaches_every_device_of_the_user() {
    // one brawler, two simultaneous connections
    let mut registry = ConnectionRegistry::new();
    let phone = registry.register_user(7, Mailbox::new(8));
    let laptop = registry.register_user(7, Mailbox::new(8));
    let someone_else = registry.register_user(8, Mailbox::new(8));

    let toast = env("kicked_from_mission", "{\"mission_id\":3}");
    send_to_user(&mut registry, 7, &toast);

    for id in [phone, laptop] {
        let got = take_frame(&mut registry, id);
        assert_eq!(got.event_type, "kicked_from_mission");
        assert_idle(&mut registry, id);
    }
    assert_idle(&mut registry, someone_else);
}

#[test]
fn global_broadcast_reaches_all_rooms_but_no_user_connections() {
    let mut registry = ConnectionRegistry::new();
    let a = registry.register_room(1, Mailbox::new(8));
    let b = registry.register_room(2, Mailbox::new(8));
    let u = registry.register_user(9, Mailbox::new(8));

    send_to_all(&mut registry, &env("mission_started", "{}"));

    assert_eq!(registry.mailbox_len(a), Some(1));
    assert_eq!(registry.mailbox_len(b), Some(1));
    assert_eq!(registry.mailbox_len(u), Some(0));
}

#[test]
fn mailbox_transmits_in_enqueue_order() {
    let mut registry = ConnectionRegistry::new();
    let id = registry.register_user(1, Mailbox::new(8));
    send_to_user(&mut registry, 1, &env("first", "a"));
    send_to_user(&mut registry, 1, &env("second", "b"));
    assert_eq!(take_frame(&mut registry, id).event_type, "first");
    assert_eq!(take_frame(&mut registry, id).event_type, "second");
    assert_idle(&mut registry, id);
}

#[test]
fn mailbox_enqueue_reports_each_outcome() {
    let mut mailbox = Mailbox::new(2);
    assert_eq!(mailbox.enqueue(env("a", "1")), EnqueueResult::Accepted);
    assert_eq!(mailbox.enqueue(env("b", "2")), EnqueueResult::Accepted);
    // the bounded queue is full: the overflow policy closes the mailbox
    assert_eq!(mailbox.enqueue(env("c", "3")), EnqueueResult::Overflowed);
    assert!(mailbox.is_closed());
    assert_eq!(mailbox.enqueue(env("d", "4")), EnqueueResult::Disconnected);
    assert_eq!(mailbox.pop_front(), None);
    assert_eq!(mailbox.len(), 2);
    assert_eq!(mailbox.limit(), 2);
}

#[test]
fn overflowing_a_stalled_consumer_closes_and_deregisters_it() {
    // a consumer that never drains its capacity-2 mailbox
    let mut registry = ConnectionRegistry::new();
    let stalled = registry.register_user(1, Mailbox::new(2));
    let healthy = registry.register_user(1, Mailbox::new(8));

    for n in 0..3 {
        send_to_user(&mut registry, 1, &env("tick", &format!("{}", n)));
    }

    // the policy fires deterministically on the third envelope
    assert!(!registry.contains(stalled));
    assert!(registry.contains(healthy));
    assert_eq!(registry.mailbox_len(healthy), Some(3));
}

#[test]
fn snapshot_delivery_survives_a_concurrent_deregistration() {
    // a fan-out call snapshots the room, then connection a deregisters
    // before the writes happen
    let mut registry = ConnectionRegistry::new();
    let a = registry.register_room(42, Mailbox::new(8));
    let b = registry.register_room(42, Mailbox::new(8));
    let c = registry.register_room(42, Mailbox::new(8));

    let snapshot = registry.connections_in_room(42);
    assert_eq!(snapshot.len(), 3);
    registry.deregister(a);

    deliver_snapshot(&mut registry, &snapshot, &env("new_comment", "{}"));

    // the call completed and still delivered to all other resolved targets
    assert!(!registry.contains(a));
    assert_eq!(registry.mailbox_len(b), Some(1));
    assert_eq!(registry.mailbox_len(c), Some(1));
}

#[test]
fn delivery_to_an_already_closed_mailbox_tears_down_only_that_connection() {
    let mut registry = ConnectionRegistry::new();
    let doomed = registry.register_room(3, Mailbox::new(1));
    let fine = registry.register_room(3, Mailbox::new(8));

    // fill and overflow the small mailbox: it closes and deregisters
    send_to_room(&mut registry, 3, &env("one", ""));
    send_to_room(&mut registry, 3, &env("two", ""));
    assert!(!registry.contains(doomed));
    assert!(registry.contains(fine));
    assert_eq!(registry.mailbox_len(fine), Some(2));
}

#[test]
fn poll_transmit_ends_after_deregistration() {
    let mut registry = ConnectionRegistry::new();
    let id = registry.register_room(1, Mailbox::new(8));
    registry.deregister(id);
    match registry.poll_transmit(id) {
        TransmitPoll::Ended => {}
        other => panic!("expected the write duty to end, got {:?}", other),
    }
}

#[test]
fn envelope_clones_are_exact() {
    let e = env("mission_completed", "{\"mission_id\":1}");
    let copy = e.clone();
    assert_eq!(copy, e);
}
