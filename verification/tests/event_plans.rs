//! The event catalogue: delivery plans, dispatch, and notification texts.

use mission_hub::envelope::Envelope;
use mission_hub::events::{
    chat_message_notice, crew_joined_notice, crew_left_notice, delivery_plan, dispatch,
    envelope_for, event_type_name, kicked_notice, mission_completed_notice,
    mission_deleted_notice, mission_failed_notice, mission_started_notice, HubEvent,
};
use mission_hub::mailbox::Mailbox;
use mission_hub::registry::{ConnectionRegistry, Directive};

fn env(event_type: &str, payload: &str) -> Envelope {
    Envelope::new(event_type.to_string(), payload.to_string())
}

#[test]
fn crew_joined_plan_is_global_then_room_then_chief() {
    let plan = delivery_plan(&HubEvent::NewCrewJoined {
        mission_id: 42,
        brawler_id: 7,
        chief_id: 3,
    });
    assert_eq!(
        plan,
        vec![Directive::ToAll, Directive::ToRoom(42), Directive::ToUser(3)]
    );
}

#[test]
fn crew_left_plan_matches_crew_joined_addressing() {
    let plan = delivery_plan(&HubEvent::CrewLeft { mission_id: 8, brawler_id: 2, chief_id: 5 });
    assert_eq!(
        plan,
        vec![Directive::ToAll, Directive::ToRoom(8), Directive::ToUser(5)]
    );
}

#[test]
fn comment_and_clear_chat_stay_in_the_room() {
    assert_eq!(
        delivery_plan(&HubEvent::NewComment { mission_id: 4 }),
        vec![Directive::ToRoom(4)]
    );
    assert_eq!(
        delivery_plan(&HubEvent::ClearChat { mission_id: 4 }),
        vec![Directive::ToRoom(4)]
    );
}

#[test]
fn chat_message_excludes_the_sender_everywhere() {
    // the sender is both in the crew and not the chief
    let plan = delivery_plan(&HubEvent::NewChatMessage {
        mission_id: 1,
        sender_id: 7,
        chief_id: 3,
        crew: vec![3, 7, 9],
    });
    assert_eq!(
        plan,
        vec![Directive::ToUser(3), Directive::ToUser(3), Directive::ToUser(9)]
    );
}

#[test]
fn chat_message_from_the_chief_skips_the_chief_toast() {
    let plan = delivery_plan(&HubEvent::NewChatMessage {
        mission_id: 1,
        sender_id: 3,
        chief_id: 3,
        crew: vec![3, 9],
    });
    assert_eq!(plan, vec![Directive::ToUser(9)]);
}

#[test]
fn mission_started_reaches_crew_then_everyone_then_the_room() {
    let plan = delivery_plan(&HubEvent::MissionStarted { mission_id: 6, crew: vec![1, 2] });
    assert_eq!(
        plan,
        vec![
            Directive::ToUser(1),
            Directive::ToUser(2),
            Directive::ToAll,
            Directive::ToRoom(6),
        ]
    );
}

#[test]
fn mission_completed_reaches_chief_and_crew_without_duplicating_the_chief() {
    let plan = delivery_plan(&HubEvent::MissionCompleted {
        mission_id: 6,
        chief_id: 1,
        crew: vec![1, 2, 3],
    });
    assert_eq!(
        plan,
        vec![
            Directive::ToAll,
            Directive::ToRoom(6),
            Directive::ToUser(1),
            Directive::ToUser(2),
            Directive::ToUser(3),
        ]
    );
}

#[test]
fn mission_failed_addresses_like_mission_completed() {
    let plan = delivery_plan(&HubEvent::MissionFailed {
        mission_id: 6,
        chief_id: 1,
        crew: vec![2],
    });
    assert_eq!(
        plan,
        vec![
            Directive::ToAll,
            Directive::ToRoom(6),
            Directive::ToUser(1),
            Directive::ToUser(2),
        ]
    );
}

#[test]
fn mission_deleted_notifies_crew_except_the_actor_then_the_room() {
    let plan = delivery_plan(&HubEvent::MissionDeleted {
        mission_id: 9,
        actor_id: 1,
        crew: vec![1, 2, 3],
    });
    assert_eq!(
        plan,
        vec![Directive::ToUser(2), Directive::ToUser(3), Directive::ToRoom(9)]
    );
}

#[test]
fn kicked_plan_is_kicked_user_then_global_then_room() {
    let plan = delivery_plan(&HubEvent::KickedFromMission { mission_id: 9, kicked_id: 4 });
    assert_eq!(
        plan,
        vec![Directive::ToUser(4), Directive::ToAll, Directive::ToRoom(9)]
    );
}

#[test]
fn event_type_names_match_the_catalogue() {
    assert_eq!(
        event_type_name(&HubEvent::NewCrewJoined { mission_id: 1, brawler_id: 2, chief_id: 3 }),
        "new_crew_joined"
    );
    assert_eq!(
        event_type_name(&HubEvent::CrewLeft { mission_id: 1, brawler_id: 2, chief_id: 3 }),
        "crew_left"
    );
    assert_eq!(event_type_name(&HubEvent::NewComment { mission_id: 1 }), "new_comment");
    assert_eq!(
        event_type_name(&HubEvent::NewChatMessage {
            mission_id: 1,
            sender_id: 2,
            chief_id: 3,
            crew: vec![],
        }),
        "new_chat_message"
    );
    assert_eq!(event_type_name(&HubEvent::ClearChat { mission_id: 1 }), "clear_chat");
    assert_eq!(
        event_type_name(&HubEvent::MissionStarted { mission_id: 1, crew: vec![] }),
        "mission_started"
    );
    assert_eq!(
        event_type_name(&HubEvent::MissionCompleted { mission_id: 1, chief_id: 2, crew: vec![] }),
        "mission_completed"
    );
    assert_eq!(
        event_type_name(&HubEvent::MissionFailed { mission_id: 1, chief_id: 2, crew: vec![] }),
        "mission_failed"
    );
    assert_eq!(
        event_type_name(&HubEvent::MissionDeleted { mission_id: 1, actor_id: 2, crew: vec![] }),
        "mission_deleted"
    );
    assert_eq!(
        event_type_name(&HubEvent::KickedFromMission { mission_id: 1, kicked_id: 2 }),
        "kicked_from_mission"
    );
}

#[test]
fn envelope_for_stamps_the_catalogue_discriminator() {
    let e = envelope_for(
        &HubEvent::NewComment { mission_id: 1 },
        "{\"content\":\"hi\"}".to_string(),
    );
    assert_eq!(e, env("new_comment", "{\"content\":\"hi\"}"));
}

#[test]
fn dispatch_runs_the_whole_plan_in_one_pass() {
    // a crew member joins mission 42: everyone sees the dashboard update,
    // room 42 sees it again, and the chief gets a directed toast
    let mut registry = ConnectionRegistry::new();
    let viewer_42 = registry.register_room(42, Mailbox::new(8));
    let viewer_7 = registry.register_room(7, Mailbox::new(8));
    let chief_device = registry.register_user(3, Mailbox::new(8));
    let other_user = registry.register_user(4, Mailbox::new(8));

    let event = HubEvent::NewCrewJoined { mission_id: 42, brawler_id: 9, chief_id: 3 };
    let envelope = envelope_for(&event, "{\"mission_id\":42}".to_string());
    dispatch(&mut registry, &event, &envelope);

    // room 42 viewers are hit by the global and the room broadcast
    assert_eq!(registry.mailbox_len(viewer_42), Some(2));
    // other rooms only by the global broadcast
    assert_eq!(registry.mailbox_len(viewer_7), Some(1));
    // the chief only by the directed delivery
    assert_eq!(registry.mailbox_len(chief_device), Some(1));
    // unrelated users see nothing
    assert_eq!(registry.mailbox_len(other_user), Some(0));
}

#[test]
fn notification_texts_match_the_catalogue() {
    assert_eq!(
        crew_joined_notice("Vault Run"),
        "A new crew member joined your mission: Vault Run"
    );
    assert_eq!(
        crew_left_notice("Vault Run"),
        "A crew member left your mission: Vault Run"
    );
    assert_eq!(mission_started_notice("Vault Run"), "Mission 'Vault Run' has started!");
    assert_eq!(
        mission_completed_notice("Vault Run"),
        "Mission 'Vault Run' has been COMPLETED!"
    );
    assert_eq!(mission_failed_notice("Vault Run"), "Mission 'Vault Run' has FAILED.");
    assert_eq!(
        mission_deleted_notice("Vault Run"),
        "Mission 'Vault Run' has been removed by the chief."
    );
    assert_eq!(
        kicked_notice("Vault Run"),
        "You were removed from crew in mission: Vault Run"
    );
    assert_eq!(
        chat_message_notice("Vault Run", "ada", "on my way"),
        "[Vault Run] ada: \"on my way\""
    );
}
