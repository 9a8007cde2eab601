//! The catalogue of business events and how each one is addressed.
//!
//! Every state change a use case commits maps to one closed event variant
//! carrying only the fields that event needs. The delivery plan for an
//! event fixes, in one place, which addressing modes fire and in what
//! order: room and global broadcasts reach ephemeral room viewers, directed
//! deliveries reach authenticated identities (with the acting user excluded
//! where the catalogue says so). Durable notification texts for offline
//! recipients are built here as well.

use crate::envelope::Envelope;
use crate::fanout::{deliver_directive, send_to_all, send_to_room, send_to_user};
use crate::registry::{ConnectionRegistry, Directive, RegistryView};
use vstd::prelude::*;
use vstd::string::StringExecFns;

verus! {

/// One business event, tagged by what happened, carrying the ids the hub
/// needs to address it. Human-readable context (names, contents) travels in
/// the envelope payload, which the hub never inspects.
#[derive(Debug)]
pub enum HubEvent {
    /// A brawler joined a mission's crew.
    NewCrewJoined { mission_id: i32, brawler_id: i32, chief_id: i32 },
    /// A brawler left a mission's crew.
    CrewLeft { mission_id: i32, brawler_id: i32, chief_id: i32 },
    /// A comment was posted in a mission's room.
    NewComment { mission_id: i32 },
    /// A chat message for recipients away from the room; the sender is
    /// excluded from delivery.
    NewChatMessage { mission_id: i32, sender_id: i32, chief_id: i32, crew: Vec<i32> },
    /// The chief cleared the mission's chat.
    ClearChat { mission_id: i32 },
    /// The mission moved to in-progress.
    MissionStarted { mission_id: i32, crew: Vec<i32> },
    /// The mission was completed.
    MissionCompleted { mission_id: i32, chief_id: i32, crew: Vec<i32> },
    /// The mission failed.
    MissionFailed { mission_id: i32, chief_id: i32, crew: Vec<i32> },
    /// The chief deleted the mission; the actor is excluded from delivery.
    MissionDeleted { mission_id: i32, actor_id: i32, crew: Vec<i32> },
    /// A brawler was kicked from the mission's crew.
    KickedFromMission { mission_id: i32, kicked_id: i32 },
}

/// One directed delivery per crew member, in roster order.
pub open spec fn directed_to(crew: Seq<i32>) -> Seq<Directive>
    decreases crew.len(),
{
    if crew.len() == 0 {
        Seq::empty()
    } else {
        directed_to(crew.drop_last()).push(Directive::ToUser(crew.last()))
    }
}

/// One directed delivery per crew member except `excluded`, in roster order.
pub open spec fn directed_excluding(crew: Seq<i32>, excluded: i32) -> Seq<Directive>
    decreases crew.len(),
{
    if crew.len() == 0 {
        Seq::empty()
    } else if crew.last() == excluded {
        directed_excluding(crew.drop_last(), excluded)
    } else {
        directed_excluding(crew.drop_last(), excluded).push(Directive::ToUser(crew.last()))
    }
}

/// The addressing plan of each event, per the catalogue.
pub open spec fn plan_spec(e: HubEvent) -> Seq<Directive> {
    match e {
        HubEvent::NewCrewJoined { mission_id, chief_id, .. } => seq![
            Directive::ToAll,
            Directive::ToRoom(mission_id),
            Directive::ToUser(chief_id),
        ],
        HubEvent::CrewLeft { mission_id, chief_id, .. } => seq![
            Directive::ToAll,
            Directive::ToRoom(mission_id),
            Directive::ToUser(chief_id),
        ],
        HubEvent::NewComment { mission_id } => seq![Directive::ToRoom(mission_id)],
        HubEvent::NewChatMessage { sender_id, chief_id, crew, .. } => (
            if chief_id == sender_id {
                Seq::<Directive>::empty()
            } else {
                seq![Directive::ToUser(chief_id)]
            }
        ) + directed_excluding(crew@, sender_id),
        HubEvent::ClearChat { mission_id } => seq![Directive::ToRoom(mission_id)],
        HubEvent::MissionStarted { mission_id, crew } => directed_to(crew@) + seq![
            Directive::ToAll,
            Directive::ToRoom(mission_id),
        ],
        HubEvent::MissionCompleted { mission_id, chief_id, crew } => seq![
            Directive::ToAll,
            Directive::ToRoom(mission_id),
            Directive::ToUser(chief_id),
        ] + directed_excluding(crew@, chief_id),
        HubEvent::MissionFailed { mission_id, chief_id, crew } => seq![
            Directive::ToAll,
            Directive::ToRoom(mission_id),
            Directive::ToUser(chief_id),
        ] + directed_excluding(crew@, chief_id),
        HubEvent::MissionDeleted { mission_id, actor_id, crew } => directed_excluding(
            crew@,
            actor_id,
        ) + seq![Directive::ToRoom(mission_id)],
        HubEvent::KickedFromMission { mission_id, kicked_id } => seq![
            Directive::ToUser(kicked_id),
            Directive::ToAll,
            Directive::ToRoom(mission_id),
        ],
    }
}

/// Appends one directed delivery per crew member.
fn push_directed(plan: &mut Vec<Directive>, crew: &Vec<i32>)
    ensures
        final(plan)@ == old(plan)@ + directed_to(crew@),
{
    let ghost base = plan@;
    let mut i: usize = 0;
    while i < crew.len()
        invariant
            i <= crew@.len(),
            plan@ == base + directed_to(crew@.take(i as int)),
        decreases crew@.len() - i,
    {
        plan.push(Directive::ToUser(crew[i]));
        proof {
            assert(crew@.take(i as int + 1).drop_last() =~= crew@.take(i as int));
            assert(crew@.take(i as int + 1).last() == crew@[i as int]);
            assert(plan@ =~= base + directed_to(crew@.take(i as int + 1)));
        }
        i = i + 1;
    }
    proof {
        assert(crew@.take(crew@.len() as int) =~= crew@);
    }
}

/// Appends one directed delivery per crew member except `excluded`.
fn push_directed_excluding(plan: &mut Vec<Directive>, crew: &Vec<i32>, excluded: i32)
    ensures
        final(plan)@ == old(plan)@ + directed_excluding(crew@, excluded),
{
    let ghost base = plan@;
    let mut i: usize = 0;
    while i < crew.len()
        invariant
            i <= crew@.len(),
            plan@ == base + directed_excluding(crew@.take(i as int), excluded),
        decreases crew@.len() - i,
    {
        if crew[i] != excluded {
            plan.push(Directive::ToUser(crew[i]));
        }
        proof {
            assert(crew@.take(i as int + 1).drop_last() =~= crew@.take(i as int));
            assert(crew@.take(i as int + 1).last() == crew@[i as int]);
            assert(plan@ =~= base + directed_excluding(crew@.take(i as int + 1), excluded));
        }
        i = i + 1;
    }
    proof {
        assert(crew@.take(crew@.len() as int) =~= crew@);
    }
}

/// Resolves an event to its ordered list of addressing directives.
pub fn delivery_plan(event: &HubEvent) -> (plan: Vec<Directive>)
    ensures
        plan@ == plan_spec(*event),
{
    let mut plan: Vec<Directive> = Vec::new();
    match event {
        HubEvent::NewCrewJoined { mission_id, chief_id, .. } => {
            plan.push(Directive::ToAll);
            plan.push(Directive::ToRoom(*mission_id));
            plan.push(Directive::ToUser(*chief_id));
        },
        HubEvent::CrewLeft { mission_id, chief_id, .. } => {
            plan.push(Directive::ToAll);
            plan.push(Directive::ToRoom(*mission_id));
            plan.push(Directive::ToUser(*chief_id));
        },
        HubEvent::NewComment { mission_id } => {
            plan.push(Directive::ToRoom(*mission_id));
        },
        HubEvent::NewChatMessage { sender_id, chief_id, crew, .. } => {
            if *chief_id != *sender_id {
                plan.push(Directive::ToUser(*chief_id));
            }
            push_directed_excluding(&mut plan, crew, *sender_id);
        },
        HubEvent::ClearChat { mission_id } => {
            plan.push(Directive::ToRoom(*mission_id));
        },
        HubEvent::MissionStarted { mission_id, crew } => {
            push_directed(&mut plan, crew);
            plan.push(Directive::ToAll);
            plan.push(Directive::ToRoom(*mission_id));
        },
        HubEvent::MissionCompleted { mission_id, chief_id, crew } => {
            plan.push(Directive::ToAll);
            plan.push(Directive::ToRoom(*mission_id));
            plan.push(Directive::ToUser(*chief_id));
            push_directed_excluding(&mut plan, crew, *chief_id);
        },
        HubEvent::MissionFailed { mission_id, chief_id, crew } => {
            plan.push(Directive::ToAll);
            plan.push(Directive::ToRoom(*mission_id));
            plan.push(Directive::ToUser(*chief_id));
            push_directed_excluding(&mut plan, crew, *chief_id);
        },
        HubEvent::MissionDeleted { mission_id, actor_id, crew } => {
            push_directed_excluding(&mut plan, crew, *actor_id);
            plan.push(Directive::ToRoom(*mission_id));
        },
        HubEvent::KickedFromMission { mission_id, kicked_id } => {
            plan.push(Directive::ToUser(*kicked_id));
            plan.push(Directive::ToAll);
            plan.push(Directive::ToRoom(*mission_id));
        },
    }
    proof {
        assert(plan@ =~= plan_spec(*event));
    }
    plan
}

/// The registry state after an event's whole plan runs, directive by
/// directive, in plan order.
pub open spec fn apply_plan(rv: RegistryView, plan: Seq<Directive>, e: Envelope) -> RegistryView
    decreases plan.len(),
{
    if plan.len() == 0 {
        rv
    } else {
        deliver_directive(apply_plan(rv, plan.drop_last(), e), plan.last(), e)
    }
}

/// Emits one event: resolves its plan and performs every send in plan
/// order, in one pass. Failure at one connection never reaches the caller
/// nor the other targets; the call cannot fail.
pub fn dispatch(registry: &mut ConnectionRegistry, event: &HubEvent, envelope: &Envelope)
    requires
        old(registry).wf(),
    ensures
        final(registry).wf(),
        final(registry)@ == apply_plan(old(registry)@, plan_spec(*event), *envelope),
{
    let ghost pre = registry@;
    let plan = delivery_plan(event);
    let mut i: usize = 0;
    while i < plan.len()
        invariant
            registry.wf(),
            i <= plan@.len(),
            plan@ == plan_spec(*event),
            registry@ == apply_plan(pre, plan@.take(i as int), *envelope),
        decreases plan@.len() - i,
    {
        match plan[i] {
            Directive::ToRoom(mission_id) => send_to_room(registry, mission_id, envelope),
            Directive::ToAll => send_to_all(registry, envelope),
            Directive::ToUser(brawler_id) => send_to_user(registry, brawler_id, envelope),
        }
        proof {
            assert(plan@.take(i as int + 1).drop_last() =~= plan@.take(i as int));
            assert(plan@.take(i as int + 1).last() == plan@[i as int]);
        }
        i = i + 1;
    }
    proof {
        assert(plan@.take(plan@.len() as int) =~= plan@);
    }
}

/// The wire discriminator of each event, as the catalogue names it.
pub open spec fn event_type_spec(e: HubEvent) -> Seq<char> {
    match e {
        HubEvent::NewCrewJoined { .. } => "new_crew_joined"@,
        HubEvent::CrewLeft { .. } => "crew_left"@,
        HubEvent::NewComment { .. } => "new_comment"@,
        HubEvent::NewChatMessage { .. } => "new_chat_message"@,
        HubEvent::ClearChat { .. } => "clear_chat"@,
        HubEvent::MissionStarted { .. } => "mission_started"@,
        HubEvent::MissionCompleted { .. } => "mission_completed"@,
        HubEvent::MissionFailed { .. } => "mission_failed"@,
        HubEvent::MissionDeleted { .. } => "mission_deleted"@,
        HubEvent::KickedFromMission { .. } => "kicked_from_mission"@,
    }
}

/// The `event_type` string to put in an envelope for this event.
pub fn event_type_name(event: &HubEvent) -> (r: String)
    ensures
        r@ == event_type_spec(*event),
{
    match event {
        HubEvent::NewCrewJoined { .. } => "new_crew_joined".to_owned(),
        HubEvent::CrewLeft { .. } => "crew_left".to_owned(),
        HubEvent::NewComment { .. } => "new_comment".to_owned(),
        HubEvent::NewChatMessage { .. } => "new_chat_message".to_owned(),
        HubEvent::ClearChat { .. } => "clear_chat".to_owned(),
        HubEvent::MissionStarted { .. } => "mission_started".to_owned(),
        HubEvent::MissionCompleted { .. } => "mission_completed".to_owned(),
        HubEvent::MissionFailed { .. } => "mission_failed".to_owned(),
        HubEvent::MissionDeleted { .. } => "mission_deleted".to_owned(),
        HubEvent::KickedFromMission { .. } => "kicked_from_mission".to_owned(),
    }
}

/// Envelope for an event: the catalogue's discriminator plus the payload
/// the caller prepared.
pub fn envelope_for(event: &HubEvent, payload: String) -> (r: Envelope)
    ensures
        r.event_type@ == event_type_spec(*event),
        r.payload == payload,
{
    Envelope::new(event_type_name(event), payload)
}

/// Durable-notification text for the chief when a crew member joins.
pub fn crew_joined_notice(mission_name: &str) -> (r: String)
    ensures
        r@ == "A new crew member joined your mission: "@ + mission_name@,
{
    "A new crew member joined your mission: ".to_owned().concat(mission_name)
}

/// Durable-notification text for the chief when a crew member leaves.
pub fn crew_left_notice(mission_name: &str) -> (r: String)
    ensures
        r@ == "A crew member left your mission: "@ + mission_name@,
{
    "A crew member left your mission: ".to_owned().concat(mission_name)
}

/// Durable-notification text for each crew member when a mission starts.
pub fn mission_started_notice(mission_name: &str) -> (r: String)
    ensures
        r@ == "Mission '"@ + mission_name@ + "' has started!"@,
{
    "Mission '".to_owned().concat(mission_name).concat("' has started!")
}

/// Durable-notification text when a mission is completed.
pub fn mission_completed_notice(mission_name: &str) -> (r: String)
    ensures
        r@ == "Mission '"@ + mission_name@ + "' has been COMPLETED!"@,
{
    "Mission '".to_owned().concat(mission_name).concat("' has been COMPLETED!")
}

/// Durable-notification text when a mission fails.
pub fn mission_failed_notice(mission_name: &str) -> (r: String)
    ensures
        r@ == "Mission '"@ + mission_name@ + "' has FAILED."@,
{
    "Mission '".to_owned().concat(mission_name).concat("' has FAILED.")
}

/// Durable-notification text for crew members when the chief deletes the
/// mission.
pub fn mission_deleted_notice(mission_name: &str) -> (r: String)
    ensures
        r@ == "Mission '"@ + mission_name@ + "' has been removed by the chief."@,
{
    "Mission '".to_owned().concat(mission_name).concat("' has been removed by the chief.")
}

/// Durable-notification text for a kicked crew member.
pub fn kicked_notice(mission_name: &str) -> (r: String)
    ensures
        r@ == "You were removed from crew in mission: "@ + mission_name@,
{
    "You were removed from crew in mission: ".to_owned().concat(mission_name)
}

/// Durable-notification text for a chat message sent while away from the
/// room: `[mission] sender: "content"`.
pub fn chat_message_notice(mission_name: &str, sender_name: &str, content: &str) -> (r: String)
    ensures
        r@ == "["@ + mission_name@ + "] "@ + sender_name@ + ": \""@ + content@ + "\""@,
{
    "[".to_owned().concat(mission_name).concat("] ").concat(sender_name).concat(": \"").concat(
        content,
    ).concat("\"")
}

} // verus!
