//! Fan-out: translating one addressing directive into mailbox writes.
//!
//! Each send operation resolves its audience once, synchronously, against a
//! snapshot of the registry, then writes the envelope into every resolved
//! mailbox independently: a closed or overflowing mailbox tears down that
//! one connection and never prevents delivery to the others. Nothing here
//! blocks on transmission — delivery is enqueue-only, and each session's
//! write duty drains its own mailbox afterwards.

use crate::envelope::Envelope;
use crate::mailbox::MailboxView;
use crate::registry::{
    target_of, ConnectionRegistry, ConnectionView, Directive, RegistryView,
};
use vstd::prelude::*;

verus! {

/// The state after one directive is delivered against `rv`: every targeted
/// connection with an open, non-full mailbox has `e` appended; every other
/// targeted connection is deregistered; the rest are untouched.
pub open spec fn deliver_directive(rv: RegistryView, d: Directive, e: Envelope) -> RegistryView {
    RegistryView {
        next_id: rv.next_id,
        conns: Map::new(
            |id: u64|
                rv.conns.dom().contains(id) && (!target_of(rv.conns[id].kind, d)
                    || rv.conns[id].mailbox.accepts()),
            |id: u64|
                if target_of(rv.conns[id].kind, d) {
                    ConnectionView {
                        kind: rv.conns[id].kind,
                        mailbox: rv.conns[id].mailbox.enqueue_transition(e),
                    }
                } else {
                    rv.conns[id]
                },
        ),
    }
}

/// Writes `e` into the mailbox of every connection named in `targets`, a
/// snapshot resolved earlier. Ids that stopped resolving since the snapshot
/// are skipped gracefully; failed mailboxes tear down only their own
/// connection; everything else is untouched.
pub fn deliver_snapshot(registry: &mut ConnectionRegistry, targets: &Vec<u64>, e: &Envelope)
    requires
        old(registry).wf(),
        forall|j: int, k: int| 0 <= j < k < targets@.len() ==> targets@[j] != targets@[k],
    ensures
        final(registry).wf(),
        final(registry)@.next_id == old(registry)@.next_id,
        forall|id: u64|
            old(registry)@.live(id) && targets@.contains(id)
                && old(registry)@.conns[id].mailbox.accepts()
                ==> final(registry)@.conns.dom().contains(id)
                && final(registry)@.conns[id] == (ConnectionView {
                kind: old(registry)@.conns[id].kind,
                mailbox: old(registry)@.conns[id].mailbox.enqueue_transition(*e),
            }),
        forall|id: u64|
            old(registry)@.live(id) && targets@.contains(id)
                && !old(registry)@.conns[id].mailbox.accepts()
                ==> !final(registry)@.conns.dom().contains(id),
        forall|id: u64|
            old(registry)@.live(id) && !targets@.contains(id)
                ==> final(registry)@.conns.dom().contains(id)
                && final(registry)@.conns[id] == old(registry)@.conns[id],
        forall|id: u64| final(registry)@.live(id) ==> old(registry)@.live(id),
{
    let ghost pre = registry@;
    let mut i: usize = 0;
    while i < targets.len()
        invariant
            registry.wf(),
            i <= targets@.len(),
            registry@.next_id == pre.next_id,
            forall|j: int, k: int| 0 <= j < k < targets@.len() ==> targets@[j] != targets@[k],
            forall|id: u64|
                pre.live(id) && targets@.take(i as int).contains(id)
                    && pre.conns[id].mailbox.accepts() ==> registry@.conns.dom().contains(id)
                    && registry@.conns[id] == (ConnectionView {
                    kind: pre.conns[id].kind,
                    mailbox: pre.conns[id].mailbox.enqueue_transition(*e),
                }),
            forall|id: u64|
                pre.live(id) && targets@.take(i as int).contains(id)
                    && !pre.conns[id].mailbox.accepts() ==> !registry@.conns.dom().contains(id),
            forall|id: u64|
                pre.live(id) && !targets@.take(i as int).contains(id)
                    ==> registry@.conns.dom().contains(id) && registry@.conns[id]
                    == pre.conns[id],
            forall|id: u64| registry@.live(id) ==> pre.live(id),
        decreases targets@.len() - i,
    {
        let id = targets[i];
        proof {
            assert(!targets@.take(i as int).contains(id)) by {
                if targets@.take(i as int).contains(id) {
                    let j = choose|j: int|
                        0 <= j < targets@.take(i as int).len() && targets@.take(i as int)[j]
                            == id;
                    assert(targets@[j] == targets@[i as int]);
                }
            }
        }
        let _ = registry.deliver_to(id, e.clone());
        proof {
            lemma_take_succ_contains(targets@, i as int);
        }
        i = i + 1;
    }
    proof {
        assert(targets@.take(targets@.len() as int) =~= targets@);
    }
}

/// After taking one more element, the processed prefix contains exactly what
/// it did before, plus that element.
proof fn lemma_take_succ_contains(s: Seq<u64>, i: int)
    requires
        0 <= i < s.len(),
    ensures
        forall|x: u64| #[trigger] s.take(i + 1).contains(x) <==> s.take(i).contains(x) || x
            == s[i],
{
    let whole = s.take(i + 1);
    let part = s.take(i);
    assert(whole =~= part.push(s[i]));
    assert forall|x: u64| #[trigger] whole.contains(x) implies part.contains(x) || x == s[i] by {
        let j = choose|j: int| 0 <= j < whole.len() && whole[j] == x;
        if j < i {
            assert(part[j] == x);
        }
    }
    assert forall|x: u64| part.contains(x) || x == s[i] implies #[trigger] whole.contains(x) by {
        if part.contains(x) {
            let j = choose|j: int| 0 <= j < part.len() && part[j] == x;
            assert(whole[j] == x);
        } else {
            assert(whole[i] == x);
        }
    }
}

/// Resolves `d` against the current registry state and delivers `envelope`
/// to exactly the resolved connections.
fn send_directive(registry: &mut ConnectionRegistry, d: Directive, envelope: &Envelope)
    requires
        old(registry).wf(),
    ensures
        final(registry).wf(),
        final(registry)@ == deliver_directive(old(registry)@, d, *envelope),
{
    let ghost pre = registry@;
    let targets = registry.resolve_targets(d);
    deliver_snapshot(registry, &targets, envelope);
    proof {
        let post = registry@;
        let m = deliver_directive(pre, d, *envelope);
        assert forall|id: u64| #[trigger] m.conns.dom().contains(id) implies post.conns.dom()
            .contains(id) && post.conns[id] == m.conns[id] by {
            if target_of(pre.conns[id].kind, d) {
                assert(targets@.contains(id));
            } else {
                assert(!targets@.contains(id)) by {
                    if targets@.contains(id) {
                        let j = choose|j: int| 0 <= j < targets@.len() && targets@[j] == id;
                        assert(pre.live(targets@[j]) && target_of(
                            pre.conns[targets@[j]].kind,
                            d,
                        ));
                    }
                }
            }
        }
        assert forall|id: u64| #[trigger] post.conns.dom().contains(id) implies m.conns.dom()
            .contains(id) by {
            assert(pre.live(id));
            if target_of(pre.conns[id].kind, d) {
                assert(targets@.contains(id));
                assert(pre.conns[id].mailbox.accepts());
            }
        }
        assert(post.conns =~= m.conns);
        assert(post =~= m);
    }
}

/// Room broadcast: delivers `envelope` to exactly the connections currently
/// registered under `mission_id`'s room — no more, no fewer. A room with no
/// viewers is a silent no-op. A connection whose mailbox is closed or
/// overflows is deregistered; the others still receive the envelope.
pub fn send_to_room(registry: &mut ConnectionRegistry, mission_id: i32, envelope: &Envelope)
    requires
        old(registry).wf(),
    ensures
        final(registry).wf(),
        final(registry)@ == deliver_directive(
            old(registry)@,
            Directive::ToRoom(mission_id),
            *envelope,
        ),
{
    send_directive(registry, Directive::ToRoom(mission_id), envelope)
}

/// Global broadcast: delivers `envelope` to every room connection in every
/// room, regardless of mission, for list-level dashboard updates.
pub fn send_to_all(registry: &mut ConnectionRegistry, envelope: &Envelope)
    requires
        old(registry).wf(),
    ensures
        final(registry).wf(),
        final(registry)@ == deliver_directive(old(registry)@, Directive::ToAll, *envelope),
{
    send_directive(registry, Directive::ToAll, envelope)
}

/// Directed delivery: delivers `envelope` to every authenticated connection
/// owned by `brawler_id` — every device at once. A user with no live
/// connections yields a successful no-op.
pub fn send_to_user(registry: &mut ConnectionRegistry, brawler_id: i32, envelope: &Envelope)
    requires
        old(registry).wf(),
    ensures
        final(registry).wf(),
        final(registry)@ == deliver_directive(
            old(registry)@,
            Directive::ToUser(brawler_id),
            *envelope,
        ),
{
    send_directive(registry, Directive::ToUser(brawler_id), envelope)
}

/// One delivery reaches exactly the connections the directive resolves to
/// at call time — no more, no fewer. Every targeted connection that can
/// accept has the envelope appended at the back of its queue and nothing
/// else changed; every other connection is untouched; a targeted connection
/// that cannot accept is deregistered; no connection appears.
pub proof fn lemma_deliver_exactly_the_targets(rv: RegistryView, d: Directive, e: Envelope)
    ensures
        forall|id: u64| #[trigger] deliver_directive(rv, d, e).conns.dom().contains(id)
            <==> rv.live(id) && (!target_of(rv.conns[id].kind, d)
            || rv.conns[id].mailbox.accepts()),
        forall|id: u64|
            rv.live(id) && #[trigger] target_of(rv.conns[id].kind, d)
                && rv.conns[id].mailbox.accepts() ==> deliver_directive(rv, d, e).conns[id]
                == (ConnectionView {
                kind: rv.conns[id].kind,
                mailbox: MailboxView {
                    queue: rv.conns[id].mailbox.queue.push(e),
                    ..rv.conns[id].mailbox
                },
            }),
        forall|id: u64| rv.live(id) && !target_of(rv.conns[id].kind, d)
            ==> #[trigger] deliver_directive(rv, d, e).conns[id] == rv.conns[id],
{
}

/// A directive that targets none of the live connections delivers nothing
/// and leaves the registry exactly as it was.
pub proof fn lemma_deliver_no_targets(rv: RegistryView, d: Directive, e: Envelope)
    requires
        forall|id: u64| rv.live(id) ==> !target_of(rv.conns[id].kind, d),
    ensures
        deliver_directive(rv, d, e) == rv,
{
    assert forall|id: u64| #[trigger] rv.conns.dom().contains(id) implies !target_of(
        rv.conns[id].kind,
        d,
    ) by {
        assert(rv.live(id));
    }
    assert(deliver_directive(rv, d, e).conns =~= rv.conns);
    assert(deliver_directive(rv, d, e) =~= rv);
}

/// Directed delivery to a user with zero live connections returns
/// successfully and delivers nothing: the registry is unchanged.
pub proof fn lemma_send_to_user_no_connections(rv: RegistryView, brawler_id: i32, e: Envelope)
    requires
        rv.user_members(brawler_id) == Set::<u64>::empty(),
    ensures
        deliver_directive(rv, Directive::ToUser(brawler_id), e) == rv,
{
    assert forall|id: u64| rv.live(id) implies !target_of(
        rv.conns[id].kind,
        Directive::ToUser(brawler_id),
    ) by {
        if target_of(rv.conns[id].kind, Directive::ToUser(brawler_id)) {
            assert(rv.user_members(brawler_id).contains(id));
        }
    }
    lemma_deliver_no_targets(rv, Directive::ToUser(brawler_id), e);
}

} // verus!

