//! The shared index of live connections.
//!
//! The registry is the single source of truth for which connections are
//! live. Each connection carries its addressing kind — room-scoped (keyed by
//! mission id) or user-scoped (keyed by brawler id) — and owns its mailbox.
//! The two address spaces are disjoint by construction: a connection has
//! exactly one kind. Connection ids are assigned from a monotone counter and
//! are never reused; deregistration is idempotent.

use crate::envelope::Envelope;
use crate::mailbox::{EnqueueResult, Mailbox, MailboxView};
use vstd::prelude::*;

verus! {

/// Which audience a connection belongs to: the viewers of one mission's
/// room, or one authenticated brawler's devices.
#[derive(Clone, Copy, PartialEq, Eq, Structural, Debug)]
pub enum ConnectionKind {
    /// An ephemeral, unauthenticated viewer of the room for this mission id.
    Room(i32),
    /// An authenticated connection owned by this brawler id.
    User(i32),
}

/// One of the three addressing modes a fan-out call can name.
#[derive(Clone, Copy, PartialEq, Eq, Structural, Debug)]
pub enum Directive {
    /// Every connection currently registered to this mission's room.
    ToRoom(i32),
    /// Every room connection in every room, regardless of mission.
    ToAll,
    /// Every authenticated connection owned by this brawler.
    ToUser(i32),
}

/// Whether a connection of kind `kind` is addressed by directive `d`.
pub open spec fn target_of(kind: ConnectionKind, d: Directive) -> bool {
    match d {
        Directive::ToRoom(mission_id) => kind == ConnectionKind::Room(mission_id),
        Directive::ToAll => kind is Room,
        Directive::ToUser(brawler_id) => kind == ConnectionKind::User(brawler_id),
    }
}

/// One live connection: its process-unique id, its addressing kind, and the
/// mailbox it exclusively owns.
pub struct Connection {
    pub id: u64,
    pub kind: ConnectionKind,
    pub mailbox: Mailbox,
}

/// The abstract state of one connection, as contracts speak of it.
#[verifier::ext_equal]
pub struct ConnectionView {
    pub kind: ConnectionKind,
    pub mailbox: MailboxView,
}

/// The abstract registry state: the live connections by id, and the next id
/// the monotone counter will hand out.
#[verifier::ext_equal]
pub struct RegistryView {
    pub conns: Map<u64, ConnectionView>,
    pub next_id: int,
}

impl RegistryView {
    /// Whether `id` currently resolves to a live connection.
    pub open spec fn live(self, id: u64) -> bool {
        self.conns.dom().contains(id)
    }

    /// The room-scoped connections registered under `mission_id`.
    pub open spec fn room_members(self, mission_id: i32) -> Set<u64> {
        self.conns.dom().filter(
            |id: u64| self.conns[id].kind == ConnectionKind::Room(mission_id),
        )
    }

    /// The authenticated connections owned by `brawler_id`.
    pub open spec fn user_members(self, brawler_id: i32) -> Set<u64> {
        self.conns.dom().filter(
            |id: u64| self.conns[id].kind == ConnectionKind::User(brawler_id),
        )
    }

    /// Every room connection, across all rooms.
    pub open spec fn room_viewers(self) -> Set<u64> {
        self.conns.dom().filter(|id: u64| self.conns[id].kind is Room)
    }

    /// Every live id lies below the counter, so a fresh id can never collide
    /// with — or resurrect — an existing or former connection.
    pub open spec fn bounded(self) -> bool {
        forall|id: u64| self.conns.dom().contains(id) ==> (id as int) < self.next_id
    }
}

/// The view of one connection record.
pub open spec fn conn_view(c: Connection) -> ConnectionView {
    ConnectionView { kind: c.kind, mailbox: c.mailbox@ }
}

/// The id-keyed map described by a table of connection records.
pub open spec fn conns_of(s: Seq<Connection>) -> Map<u64, ConnectionView>
    decreases s.len(),
{
    if s.len() == 0 {
        Map::empty()
    } else {
        conns_of(s.drop_last()).insert(s.last().id, conn_view(s.last()))
    }
}

/// No two records of `s` share an id.
pub open spec fn distinct_ids(s: Seq<Connection>) -> bool {
    forall|i: int, j: int| 0 <= i < j < s.len() ==> s[i].id != s[j].id
}

/// An id is in the map exactly when some record of the table carries it.
pub proof fn lemma_conns_of_dom(s: Seq<Connection>)
    ensures
        forall|id: u64| #[trigger] conns_of(s).dom().contains(id)
            <==> exists|i: int| 0 <= i < s.len() && s[i].id == id,
    decreases s.len(),
{
    if s.len() > 0 {
        lemma_conns_of_dom(s.drop_last());
        assert forall|id: u64| #[trigger] conns_of(s).dom().contains(id)
            implies exists|i: int| 0 <= i < s.len() && s[i].id == id by {
            if id == s.last().id {
                assert(s[s.len() - 1].id == id);
            } else {
                assert(conns_of(s.drop_last()).dom().contains(id));
                let i = choose|i: int| 0 <= i < s.drop_last().len() && s.drop_last()[i].id == id;
                assert(s[i].id == id);
            }
        }
        assert forall|id: u64| exists|i: int| 0 <= i < s.len() && s[i].id == id
            implies #[trigger] conns_of(s).dom().contains(id) by {
            let i = choose|i: int| 0 <= i < s.len() && s[i].id == id;
            if i < s.len() - 1 {
                assert(s.drop_last()[i].id == id);
                assert(exists|k: int| 0 <= k < s.drop_last().len() && s.drop_last()[k].id == id);
                assert(conns_of(s.drop_last()).dom().contains(id));
            } else {
                assert(s.last().id == id);
            }
        }
    }
}

/// With distinct ids, the map entry for a record's id is that record's view.
pub proof fn lemma_conns_of_at(s: Seq<Connection>, i: int)
    requires
        distinct_ids(s),
        0 <= i < s.len(),
    ensures
        conns_of(s).dom().contains(s[i].id),
        conns_of(s)[s[i].id] == conn_view(s[i]),
    decreases s.len(),
{
    if i == s.len() - 1 {
    } else {
        assert(distinct_ids(s.drop_last()));
        assert(s.drop_last()[i] == s[i]);
        lemma_conns_of_at(s.drop_last(), i);
        assert(s[i].id != s.last().id);
    }
}

/// Appending a record inserts its entry into the map.
pub proof fn lemma_conns_of_push(s: Seq<Connection>, c: Connection)
    ensures
        conns_of(s.push(c)) == conns_of(s).insert(c.id, conn_view(c)),
{
    assert(s.push(c).drop_last() =~= s);
    assert(s.push(c).last() == c);
}

/// Removing a record removes exactly its entry from the map.
pub proof fn lemma_conns_of_remove(s: Seq<Connection>, i: int)
    requires
        distinct_ids(s),
        0 <= i < s.len(),
    ensures
        conns_of(s.remove(i)) =~= conns_of(s).remove(s[i].id),
    decreases s.len(),
{
    lemma_conns_of_dom(s.drop_last());
    if i == s.len() - 1 {
        assert(s.remove(i) =~= s.drop_last());
        assert(!conns_of(s.drop_last()).dom().contains(s[i].id));
        assert(conns_of(s.drop_last()) =~= conns_of(s.drop_last()).insert(
            s.last().id,
            conn_view(s.last()),
        ).remove(s[i].id));
    } else {
        assert(distinct_ids(s.drop_last()));
        assert(s.drop_last()[i] == s[i]);
        lemma_conns_of_remove(s.drop_last(), i);
        assert(s.remove(i).drop_last() =~= s.drop_last().remove(i));
        assert(s.remove(i).last() == s.last());
        assert(s[i].id != s.last().id);
        // inserting the last record commutes with removing a different id
        assert(conns_of(s.drop_last()).remove(s[i].id).insert(s.last().id, conn_view(s.last()))
            =~= conns_of(s.drop_last()).insert(s.last().id, conn_view(s.last())).remove(s[i].id));
    }
}

/// Replacing a record by one with the same id overwrites its entry.
pub proof fn lemma_conns_of_update(s: Seq<Connection>, i: int, c: Connection)
    requires
        distinct_ids(s),
        0 <= i < s.len(),
        c.id == s[i].id,
    ensures
        conns_of(s.update(i, c)) =~= conns_of(s).insert(c.id, conn_view(c)),
    decreases s.len(),
{
    if i == s.len() - 1 {
        assert(s.update(i, c).drop_last() =~= s.drop_last());
        assert(s.update(i, c).last() == c);
        assert(conns_of(s.drop_last()).insert(c.id, conn_view(c)) =~= conns_of(
            s.drop_last(),
        ).insert(s.last().id, conn_view(s.last())).insert(c.id, conn_view(c)));
    } else {
        assert(distinct_ids(s.drop_last()));
        assert(s.drop_last()[i] == s[i]);
        lemma_conns_of_update(s.drop_last(), i, c);
        assert(s.update(i, c).drop_last() =~= s.drop_last().update(i, c));
        assert(s.update(i, c).last() == s.last());
        assert(s[i].id != s.last().id);
        assert(conns_of(s.drop_last()).insert(c.id, conn_view(c)).insert(
            s.last().id,
            conn_view(s.last()),
        ) =~= conns_of(s.drop_last()).insert(s.last().id, conn_view(s.last())).insert(
            c.id,
            conn_view(c),
        ));
    }
}

/// Outcome of attempting to write one envelope to one resolved connection.
#[derive(Clone, Copy, PartialEq, Eq, Structural, Debug)]
pub enum DeliverOutcome {
    /// The envelope is now queued in the connection's mailbox.
    Delivered,
    /// The mailbox was closed or overflowed; the connection was deregistered.
    ConnectionClosed,
    /// The id no longer resolves (already deregistered); nothing happened.
    NotRegistered,
}

/// What the session's write duty sees when it asks for the next envelope.
#[derive(Debug)]
pub enum TransmitPoll {
    /// The oldest queued envelope, removed from the queue for transmission.
    Frame(Envelope),
    /// The mailbox is open but currently empty.
    Idle,
    /// The connection is gone or its mailbox is closed; the duty must stop.
    Ended,
}

/// The concurrently shared index of all live connections.
///
/// The callers serialize access (the surrounding runtime wraps one registry
/// in a lock); every operation here is a short, bounded critical section and
/// none blocks on transmission.
pub struct ConnectionRegistry {
    table: Vec<Connection>,
    next_id: u64,
}

impl View for ConnectionRegistry {
    type V = RegistryView;

    closed spec fn view(&self) -> RegistryView {
        RegistryView { conns: conns_of(self.table@), next_id: self.next_id as int }
    }
}

impl ConnectionRegistry {
    /// The registry's internal consistency: ids are distinct and below the
    /// monotone counter.
    pub closed spec fn wf(&self) -> bool {
        &&& distinct_ids(self.table@)
        &&& forall|i: int| 0 <= i < self.table@.len() ==> self.table@[i].id < self.next_id
    }

    /// An empty registry whose counter starts at zero.
    pub fn new() -> (r: ConnectionRegistry)
        ensures
            r.wf(),
            r@.conns == Map::<u64, ConnectionView>::empty(),
            r@.next_id == 0,
    {
        ConnectionRegistry { table: Vec::new(), next_id: 0 }
    }

    /// The index of the record carrying `id`, if any.
    fn find_index(&self, id: u64) -> (r: Option<usize>)
        ensures
            match r {
                Option::Some(i) => i < self.table@.len() && self.table@[i as int].id == id,
                Option::None => forall|i: int|
                    0 <= i < self.table@.len() ==> self.table@[i].id != id,
            },
    {
        let mut i: usize = 0;
        while i < self.table.len()
            invariant
                i <= self.table@.len(),
                forall|j: int| 0 <= j < i ==> self.table@[j].id != id,
            decreases self.table@.len() - i,
        {
            if self.table[i].id == id {
                return Option::Some(i);
            }
            i = i + 1;
        }
        Option::None
    }

    fn register(&mut self, kind: ConnectionKind, mailbox: Mailbox) -> (id: u64)
        requires
            old(self).wf(),
            old(self)@.next_id < u64::MAX,
        ensures
            final(self).wf(),
            id as int == old(self)@.next_id,
            !old(self)@.live(id),
            final(self)@.conns == old(self)@.conns.insert(
                id,
                ConnectionView { kind, mailbox: mailbox@ },
            ),
            final(self)@.next_id == old(self)@.next_id + 1,
            final(self)@.bounded(),
    {
        let id = self.next_id;
        self.next_id = id + 1;
        let ghost pre = self.table@;
        self.table.push(Connection { id, kind, mailbox });
        proof {
            lemma_conns_of_push(pre, self.table@.last());
            lemma_conns_of_dom(pre);
            assert(self.table@.drop_last() =~= pre);
            assert forall|idv: u64| self@.conns.dom().contains(idv) implies (idv as int)
                < self@.next_id by {
                lemma_conns_of_dom(self.table@);
            }
        }
        id
    }

    /// Registers a room-scoped connection under `mission_id` and returns its
    /// fresh id. The connection is reachable by room and global broadcasts
    /// immediately upon return.
    pub fn register_room(&mut self, mission_id: i32, mailbox: Mailbox) -> (id: u64)
        requires
            old(self).wf(),
            old(self)@.next_id < u64::MAX,
        ensures
            final(self).wf(),
            id as int == old(self)@.next_id,
            !old(self)@.live(id),
            final(self)@.conns == old(self)@.conns.insert(
                id,
                ConnectionView { kind: ConnectionKind::Room(mission_id), mailbox: mailbox@ },
            ),
            final(self)@.next_id == old(self)@.next_id + 1,
            final(self)@.bounded(),
    {
        self.register(ConnectionKind::Room(mission_id), mailbox)
    }

    /// Registers an authenticated connection owned by `brawler_id` and
    /// returns its fresh id. One brawler may hold several connections at
    /// once (one per device).
    pub fn register_user(&mut self, brawler_id: i32, mailbox: Mailbox) -> (id: u64)
        requires
            old(self).wf(),
            old(self)@.next_id < u64::MAX,
        ensures
            final(self).wf(),
            id as int == old(self)@.next_id,
            !old(self)@.live(id),
            final(self)@.conns == old(self)@.conns.insert(
                id,
                ConnectionView { kind: ConnectionKind::User(brawler_id), mailbox: mailbox@ },
            ),
            final(self)@.next_id == old(self)@.next_id + 1,
            final(self)@.bounded(),
    {
        self.register(ConnectionKind::User(brawler_id), mailbox)
    }

    /// Removes `id` from the registry, whichever address space holds it.
    /// Removing an id that does not resolve is a no-op, so deregistration is
    /// idempotent, and an id, once removed, never resolves again.
    pub fn deregister(&mut self, id: u64)
        requires
            old(self).wf(),
        ensures
            final(self).wf(),
            final(self)@.conns == old(self)@.conns.remove(id),
            final(self)@.next_id == old(self)@.next_id,
    {
        let ghost pre = self.table@;
        match self.find_index(id) {
            Option::Some(i) => {
                self.table.remove(i);
                proof {
                    lemma_conns_of_remove(pre, i as int);
                }
            },
            Option::None => {
                proof {
                    lemma_conns_of_dom(pre);
                    assert(conns_of(pre).remove(id) =~= conns_of(pre));
                }
            },
        }
    }

    /// Whether `id` currently resolves to a live connection.
    pub fn contains(&self, id: u64) -> (r: bool)
        ensures
            r == self@.live(id),
    {
        let r = self.find_index(id);
        proof {
            lemma_conns_of_dom(self.table@);
        }
        match r {
            Option::Some(_) => true,
            Option::None => false,
        }
    }

    /// The ids addressed by `d`, resolved once against the current state.
    /// The result is a snapshot: later mutation does not change it.
    pub fn resolve_targets(&self, d: Directive) -> (ids: Vec<u64>)
        requires
            self.wf(),
        ensures
            forall|j: int| 0 <= j < ids@.len() ==> self@.live(#[trigger] ids@[j]) && target_of(
                self@.conns[ids@[j]].kind,
                d,
            ),
            forall|id: u64| self@.live(id) && target_of(self@.conns[id].kind, d)
                ==> ids@.contains(id),
            forall|j: int, k: int| 0 <= j < k < ids@.len() ==> ids@[j] != ids@[k],
    {
        let mut ids: Vec<u64> = Vec::new();
        let mut i: usize = 0;
        while i < self.table.len()
            invariant
                self.wf(),
                i <= self.table@.len(),
                forall|j: int| 0 <= j < ids@.len() ==> exists|t: int|
                    0 <= t < i && self.table@[t].id == #[trigger] ids@[j] && target_of(
                        self.table@[t].kind,
                        d,
                    ),
                forall|t: int| 0 <= t < i && target_of(#[trigger] self.table@[t].kind, d)
                    ==> ids@.contains(self.table@[t].id),
                forall|j: int, k: int| 0 <= j < k < ids@.len() ==> ids@[j] != ids@[k],
            decreases self.table@.len() - i,
        {
            let c_kind = self.table[i].kind;
            let is_target = match d {
                Directive::ToRoom(mission_id) => match c_kind {
                    ConnectionKind::Room(m) => m == mission_id,
                    ConnectionKind::User(_) => false,
                },
                Directive::ToAll => match c_kind {
                    ConnectionKind::Room(_) => true,
                    ConnectionKind::User(_) => false,
                },
                Directive::ToUser(brawler_id) => match c_kind {
                    ConnectionKind::Room(_) => false,
                    ConnectionKind::User(u) => u == brawler_id,
                },
            };
            if is_target {
                proof {
                    assert forall|j: int| 0 <= j < ids@.len() implies ids@[j]
                        != self.table@[i as int].id by {
                        let t = choose|t: int|
                            0 <= t < i && self.table@[t].id == ids@[j] && target_of(
                                self.table@[t].kind,
                                d,
                            );
                        assert(self.table@[t].id != self.table@[i as int].id);
                    }
                }
                let ghost prev = ids@;
                ids.push(self.table[i].id);
                proof {
                    assert forall|t: int| 0 <= t < i + 1 && target_of(
                        #[trigger] self.table@[t].kind,
                        d,
                    ) implies ids@.contains(self.table@[t].id) by {
                        if t < i {
                            let j = choose|j: int|
                                0 <= j < prev.len() && prev[j] == self.table@[t].id;
                            assert(ids@[j] == self.table@[t].id);
                        } else {
                            assert(ids@[prev.len() as int] == self.table@[t].id);
                        }
                    }
                }
            }
            i = i + 1;
        }
        proof {
            lemma_conns_of_dom(self.table@);
            assert(i == self.table@.len());
            assert forall|j: int| 0 <= j < ids@.len() implies self@.live(#[trigger] ids@[j])
                && target_of(self@.conns[ids@[j]].kind, d) by {
                let t = choose|t: int|
                    0 <= t < i && self.table@[t].id == ids@[j] && target_of(
                        self.table@[t].kind,
                        d,
                    );
                lemma_conns_of_at(self.table@, t);
            }
            assert forall|id: u64| self@.live(id) && target_of(self@.conns[id].kind, d)
                implies ids@.contains(id) by {
                let t = choose|t: int| 0 <= t < self.table@.len() && self.table@[t].id == id;
                lemma_conns_of_at(self.table@, t);
                assert(target_of(self.table@[t].kind, d));
                assert(ids@.contains(self.table@[t].id));
            }
        }
        ids
    }

    /// The connections currently registered to `mission_id`'s room. Missing
    /// rooms simply yield an empty snapshot; absence of viewers is normal.
    pub fn connections_in_room(&self, mission_id: i32) -> (ids: Vec<u64>)
        requires
            self.wf(),
        ensures
            forall|j: int| 0 <= j < ids@.len() ==> self@.room_members(mission_id).contains(
                #[trigger] ids@[j],
            ),
            forall|id: u64| self@.room_members(mission_id).contains(id) ==> ids@.contains(id),
            forall|j: int, k: int| 0 <= j < k < ids@.len() ==> ids@[j] != ids@[k],
    {
        self.resolve_targets(Directive::ToRoom(mission_id))
    }

    /// The authenticated connections currently owned by `brawler_id`.
    /// An unknown brawler yields an empty snapshot, never an error.
    pub fn connections_for_user(&self, brawler_id: i32) -> (ids: Vec<u64>)
        requires
            self.wf(),
        ensures
            forall|j: int| 0 <= j < ids@.len() ==> self@.user_members(brawler_id).contains(
                #[trigger] ids@[j],
            ),
            forall|id: u64| self@.user_members(brawler_id).contains(id) ==> ids@.contains(id),
            forall|j: int, k: int| 0 <= j < k < ids@.len() ==> ids@[j] != ids@[k],
    {
        self.resolve_targets(Directive::ToUser(brawler_id))
    }

    /// Every room connection in every room, for cross-room dashboard
    /// updates.
    pub fn all_room_connections(&self) -> (ids: Vec<u64>)
        requires
            self.wf(),
        ensures
            forall|j: int| 0 <= j < ids@.len() ==> self@.room_viewers().contains(
                #[trigger] ids@[j],
            ),
            forall|id: u64| self@.room_viewers().contains(id) ==> ids@.contains(id),
            forall|j: int, k: int| 0 <= j < k < ids@.len() ==> ids@[j] != ids@[k],
    {
        self.resolve_targets(Directive::ToAll)
    }

    /// Attempts to write `e` into the mailbox of connection `id`. If the
    /// mailbox is open and has room, the envelope is appended. Otherwise —
    /// already closed, or closed now by overflowing — the connection is
    /// deregistered on the spot, and the failure stays contained to this one
    /// connection. An id that no longer resolves is a graceful no-op.
    pub fn deliver_to(&mut self, id: u64, e: Envelope) -> (r: DeliverOutcome)
        requires
            old(self).wf(),
        ensures
            final(self).wf(),
            final(self)@.next_id == old(self)@.next_id,
            old(self)@.live(id) && old(self)@.conns[id].mailbox.accepts() ==> final(self)@.conns
                == old(self)@.conns.insert(
                id,
                ConnectionView {
                    kind: old(self)@.conns[id].kind,
                    mailbox: old(self)@.conns[id].mailbox.enqueue_transition(e),
                },
            ) && r == DeliverOutcome::Delivered,
            old(self)@.live(id) && !old(self)@.conns[id].mailbox.accepts() ==> final(self)@.conns
                == old(self)@.conns.remove(id) && r == DeliverOutcome::ConnectionClosed,
            !old(self)@.live(id) ==> final(self)@.conns == old(self)@.conns && r
                == DeliverOutcome::NotRegistered,
    {
        let ghost pre = self.table@;
        match self.find_index(id) {
            Option::None => {
                proof {
                    lemma_conns_of_dom(pre);
                }
                DeliverOutcome::NotRegistered
            },
            Option::Some(i) => {
                proof {
                    lemma_conns_of_at(pre, i as int);
                }
                let outcome = self.table[i].mailbox.enqueue(e);
                let ghost mid = self.table@;
                proof {
                    assert(mid =~= pre.update(
                        i as int,
                        Connection {
                            id: pre[i as int].id,
                            kind: pre[i as int].kind,
                            mailbox: mid[i as int].mailbox,
                        },
                    ));
                    lemma_conns_of_update(pre, i as int, mid[i as int]);
                }
                match outcome {
                    EnqueueResult::Accepted => DeliverOutcome::Delivered,
                    EnqueueResult::Overflowed | EnqueueResult::Disconnected => {
                        self.table.remove(i);
                        proof {
                            lemma_conns_of_remove(mid, i as int);
                            assert(conns_of(mid).remove(id) =~= conns_of(pre).remove(id));
                        }
                        DeliverOutcome::ConnectionClosed
                    },
                }
            },
        }
    }

    /// Hands the session's write duty the next envelope to transmit from
    /// connection `id`'s mailbox, oldest first. `Ended` means the duty must
    /// stop: the connection is gone or its mailbox has closed.
    pub fn poll_transmit(&mut self, id: u64) -> (r: TransmitPoll)
        requires
            old(self).wf(),
        ensures
            final(self).wf(),
            final(self)@.next_id == old(self)@.next_id,
            !old(self)@.live(id) ==> final(self)@.conns == old(self)@.conns && r is Ended,
            old(self)@.live(id) && old(self)@.conns[id].mailbox.closed ==> final(self)@.conns
                == old(self)@.conns && r is Ended,
            old(self)@.live(id) && !old(self)@.conns[id].mailbox.closed && old(
                self,
            )@.conns[id].mailbox.queue.len() == 0 ==> final(self)@.conns == old(self)@.conns
                && r is Idle,
            old(self)@.live(id) && !old(self)@.conns[id].mailbox.closed && old(
                self,
            )@.conns[id].mailbox.queue.len() > 0 ==> final(self)@.conns == old(self)@.conns.insert(
                id,
                ConnectionView {
                    kind: old(self)@.conns[id].kind,
                    mailbox: old(self)@.conns[id].mailbox.pop_transition(),
                },
            ) && r == TransmitPoll::Frame(old(self)@.conns[id].mailbox.queue[0]),
    {
        let ghost pre = self.table@;
        match self.find_index(id) {
            Option::None => {
                proof {
                    lemma_conns_of_dom(pre);
                }
                TransmitPoll::Ended
            },
            Option::Some(i) => {
                proof {
                    lemma_conns_of_at(pre, i as int);
                }
                let popped = self.table[i].mailbox.pop_front();
                let ghost mid = self.table@;
                proof {
                    assert(mid =~= pre.update(
                        i as int,
                        Connection {
                            id: pre[i as int].id,
                            kind: pre[i as int].kind,
                            mailbox: mid[i as int].mailbox,
                        },
                    ));
                    lemma_conns_of_update(pre, i as int, mid[i as int]);
                }
                match popped {
                    Option::Some(e) => {
                        proof {
                            assert(conns_of(mid) =~= conns_of(pre).insert(
                                id,
                                ConnectionView {
                                    kind: conns_of(pre)[id].kind,
                                    mailbox: conns_of(pre)[id].mailbox.pop_transition(),
                                },
                            ));
                        }
                        TransmitPoll::Frame(e)
                    },
                    Option::None => {
                        proof {
                            assert(conns_of(mid) =~= conns_of(pre));
                        }
                        if self.table[i].mailbox.is_closed() {
                            TransmitPoll::Ended
                        } else {
                            TransmitPoll::Idle
                        }
                    },
                }
            },
        }
    }

    /// How many envelopes wait in connection `id`'s mailbox, if it is live.
    pub fn mailbox_len(&self, id: u64) -> (r: Option<usize>)
        requires
            self.wf(),
        ensures
            self@.live(id) ==> r == Option::Some(self@.conns[id].mailbox.queue.len() as usize),
            !self@.live(id) ==> r is None,
    {
        proof {
            lemma_conns_of_dom(self.table@);
        }
        match self.find_index(id) {
            Option::Some(i) => {
                proof {
                    lemma_conns_of_at(self.table@, i as int);
                }
                Option::Some(self.table[i].mailbox.len())
            },
            Option::None => Option::None,
        }
    }
}

/// Room and user address spaces are disjoint: a connection registered for a
/// room is never returned among a user's connections, and vice versa,
/// because a connection has exactly one kind.
pub proof fn lemma_address_spaces_disjoint(rv: RegistryView, mission_id: i32, brawler_id: i32)
    ensures
        rv.room_members(mission_id).intersect(rv.user_members(brawler_id)) =~= Set::<u64>::empty(),
{
}

} // verus!
