//! Registry lifecycles over whole histories of operations.
//!
//! The registry's contracts describe one operation at a time. This module
//! folds arbitrary sequences of register and deregister operations over an
//! abstract registry state and proves the lifecycle law: the id handed out
//! by a register operation resolves exactly in the window that starts at
//! that register and ends at the first deregister of that id — never
//! before, never after, whatever else the history does. Ids are never
//! reused, so no later registration can resurrect a removed id.

use crate::mailbox::MailboxView;
use crate::registry::{ConnectionKind, ConnectionView, RegistryView};
use vstd::prelude::*;

verus! {

/// One mutation of the registry, as history records it.
pub enum RegistryOp {
    /// A room-scoped connection with this mailbox state was registered.
    RegisterRoom { mission_id: i32, mailbox: MailboxView },
    /// A user-scoped connection with this mailbox state was registered.
    RegisterUser { brawler_id: i32, mailbox: MailboxView },
    /// This id was deregistered (a no-op when it does not resolve).
    Deregister { id: u64 },
}

/// The state after one operation. This mirrors the contracts of
/// `ConnectionRegistry::register_room`, `register_user` and `deregister`:
/// a register inserts a connection under the counter's value and advances
/// the counter; a deregister removes the id and leaves the counter alone.
pub open spec fn apply_op(rv: RegistryView, op: RegistryOp) -> RegistryView {
    match op {
        RegistryOp::RegisterRoom { mission_id, mailbox } => RegistryView {
            conns: rv.conns.insert(
                rv.next_id as u64,
                ConnectionView { kind: ConnectionKind::Room(mission_id), mailbox },
            ),
            next_id: rv.next_id + 1,
        },
        RegistryOp::RegisterUser { brawler_id, mailbox } => RegistryView {
            conns: rv.conns.insert(
                rv.next_id as u64,
                ConnectionView { kind: ConnectionKind::User(brawler_id), mailbox },
            ),
            next_id: rv.next_id + 1,
        },
        RegistryOp::Deregister { id } => RegistryView {
            conns: rv.conns.remove(id),
            next_id: rv.next_id,
        },
    }
}

/// The state after a whole history, applied in order.
pub open spec fn apply_ops(rv: RegistryView, ops: Seq<RegistryOp>) -> RegistryView
    decreases ops.len(),
{
    if ops.len() == 0 {
        rv
    } else {
        apply_op(apply_ops(rv, ops.drop_last()), ops.last())
    }
}

/// The id handed out by the register operation at position `k`.
pub open spec fn assigned_id(rv0: RegistryView, ops: Seq<RegistryOp>, k: int) -> u64 {
    apply_ops(rv0, ops.take(k)).next_id as u64
}

/// Whether some operation strictly between positions `k` and `j`
/// deregisters `id`.
pub open spec fn deregistered_between(ops: Seq<RegistryOp>, id: u64, k: int, j: int) -> bool {
    exists|d: int| k < d < j && ops[d] == (RegistryOp::Deregister { id })
}

/// Histories compose: applying a concatenation is applying each part.
pub proof fn lemma_apply_ops_append(rv: RegistryView, a: Seq<RegistryOp>, b: Seq<RegistryOp>)
    ensures
        apply_ops(rv, a + b) == apply_ops(apply_ops(rv, a), b),
    decreases b.len(),
{
    if b.len() == 0 {
        assert(a + b =~= a);
    } else {
        lemma_apply_ops_append(rv, a, b.drop_last());
        assert((a + b).drop_last() =~= a + b.drop_last());
        assert((a + b).last() == b.last());
    }
}

/// The counter never moves backwards.
pub proof fn lemma_next_id_monotone(rv: RegistryView, ops: Seq<RegistryOp>)
    ensures
        apply_ops(rv, ops).next_id >= rv.next_id,
    decreases ops.len(),
{
    if ops.len() > 0 {
        lemma_next_id_monotone(rv, ops.drop_last());
    }
}

/// The counter after a prefix never exceeds the counter after the whole
/// history.
proof fn lemma_prefix_next_le(rv: RegistryView, ops: Seq<RegistryOp>, j: int)
    requires
        0 <= j <= ops.len(),
    ensures
        apply_ops(rv, ops.take(j)).next_id <= apply_ops(rv, ops).next_id,
{
    assert(ops =~= ops.take(j) + ops.skip(j));
    lemma_apply_ops_append(rv, ops.take(j), ops.skip(j));
    lemma_next_id_monotone(apply_ops(rv, ops.take(j)), ops.skip(j));
}

/// A history whose counter stays within `u64` keeps every live id below
/// the counter.
pub proof fn lemma_bounded_run(rv: RegistryView, ops: Seq<RegistryOp>)
    requires
        rv.bounded(),
        rv.next_id >= 0,
        apply_ops(rv, ops).next_id <= u64::MAX as int,
    ensures
        apply_ops(rv, ops).bounded(),
        apply_ops(rv, ops).next_id >= 0,
    decreases ops.len(),
{
    if ops.len() > 0 {
        let mid = apply_ops(rv, ops.drop_last());
        assert(mid.next_id <= apply_ops(rv, ops).next_id);
        lemma_bounded_run(rv, ops.drop_last());
        match ops.last() {
            RegistryOp::RegisterRoom { .. } | RegistryOp::RegisterUser { .. } => {
                assert((mid.next_id as u64) as int == mid.next_id);
            },
            RegistryOp::Deregister { .. } => {},
        }
    }
}

/// Splitting `deregistered_between` at its last position.
proof fn lemma_dereg_between_step(ops: Seq<RegistryOp>, id: u64, k: int, j: int)
    requires
        0 <= k,
        k + 1 < j <= ops.len(),
    ensures
        deregistered_between(ops, id, k, j) <==> (deregistered_between(ops, id, k, j - 1)
            || ops[j - 1] == (RegistryOp::Deregister { id })),
{
    if deregistered_between(ops, id, k, j) {
        let d = choose|d: int| k < d < j && ops[d] == (RegistryOp::Deregister { id });
        if d < j - 1 {
            assert(deregistered_between(ops, id, k, j - 1));
        }
    }
    if deregistered_between(ops, id, k, j - 1) {
        let d = choose|d: int| k < d < j - 1 && ops[d] == (RegistryOp::Deregister { id });
        assert(k < d < j && ops[d] == (RegistryOp::Deregister { id }));
    }
    if ops[j - 1] == (RegistryOp::Deregister { id }) {
        assert(k < j - 1 < j && ops[j - 1] == (RegistryOp::Deregister { id }));
    }
}

/// After its register, the assigned id resolves exactly until the first
/// deregister of that id.
proof fn lemma_live_iff(rv0: RegistryView, ops: Seq<RegistryOp>, k: int, j: int)
    requires
        rv0.bounded(),
        rv0.next_id >= 0,
        apply_ops(rv0, ops).next_id <= u64::MAX as int,
        0 <= k < ops.len(),
        ops[k] is RegisterRoom || ops[k] is RegisterUser,
        k < j <= ops.len(),
    ensures
        apply_ops(rv0, ops.take(j)).live(assigned_id(rv0, ops, k)) <==> !deregistered_between(
            ops,
            assigned_id(rv0, ops, k),
            k,
            j,
        ),
    decreases j,
{
    let id = assigned_id(rv0, ops, k);
    let at_k = apply_ops(rv0, ops.take(k));
    lemma_prefix_next_le(rv0, ops, k + 1);
    lemma_next_id_monotone(rv0, ops.take(k));
    assert(ops.take(k + 1).drop_last() =~= ops.take(k));
    assert(ops.take(k + 1).last() == ops[k]);
    // the register at k advances the counter past the assigned id
    assert(apply_ops(rv0, ops.take(k + 1)).next_id == at_k.next_id + 1);
    assert((at_k.next_id as u64) as int == at_k.next_id);
    if j == k + 1 {
        assert(apply_ops(rv0, ops.take(j)).live(id));
        if deregistered_between(ops, id, k, j) {
            let d = choose|d: int| k < d < j && ops[d] == (RegistryOp::Deregister { id });
            assert(false);
        }
    } else {
        lemma_live_iff(rv0, ops, k, j - 1);
        let prev = apply_ops(rv0, ops.take(j - 1));
        assert(ops.take(j).drop_last() =~= ops.take(j - 1));
        assert(ops.take(j).last() == ops[j - 1]);
        lemma_dereg_between_step(ops, id, k, j);
        match ops[j - 1] {
            RegistryOp::Deregister { id: did } => {
                if did == id {
                    assert(!apply_ops(rv0, ops.take(j)).live(id));
                    assert(ops[j - 1] == (RegistryOp::Deregister { id }));
                } else {
                    assert(ops[j - 1] != (RegistryOp::Deregister { id }));
                }
            },
            RegistryOp::RegisterRoom { .. } | RegistryOp::RegisterUser { .. } => {
                // the id a later register inserts lies above the assigned id
                assert(ops.take(j - 1) =~= ops.take(k + 1) + ops.subrange(k + 1, j - 1));
                lemma_apply_ops_append(rv0, ops.take(k + 1), ops.subrange(k + 1, j - 1));
                lemma_next_id_monotone(
                    apply_ops(rv0, ops.take(k + 1)),
                    ops.subrange(k + 1, j - 1),
                );
                lemma_prefix_next_le(rv0, ops, j - 1);
                assert((prev.next_id as u64) as int == prev.next_id);
                assert(prev.next_id as u64 != id);
                assert(ops[j - 1] != (RegistryOp::Deregister { id }));
            },
        }
    }
}

/// The registry lifecycle law. For any starting state whose ids sit below
/// its counter and any history of register and deregister operations whose
/// counter stays within `u64`: the id assigned by the register at position
/// `k` does not resolve at any point up to and including that register's
/// turn, and from then on it resolves exactly until the first deregister of
/// that id. Redundant deregisters stay no-ops, and no later register can
/// reuse or revive the id.
pub proof fn lemma_registered_id_lifecycle(rv0: RegistryView, ops: Seq<RegistryOp>, k: int)
    requires
        rv0.bounded(),
        rv0.next_id >= 0,
        apply_ops(rv0, ops).next_id <= u64::MAX as int,
        0 <= k < ops.len(),
        ops[k] is RegisterRoom || ops[k] is RegisterUser,
    ensures
        forall|j: int| 0 <= j <= k ==> !apply_ops(rv0, ops.take(j)).live(
            assigned_id(rv0, ops, k),
        ),
        forall|j: int| k < j <= ops.len() ==> (apply_ops(rv0, ops.take(j)).live(
            assigned_id(rv0, ops, k),
        ) <==> !deregistered_between(ops, assigned_id(rv0, ops, k), k, j)),
{
    let id = assigned_id(rv0, ops, k);
    let at_k = apply_ops(rv0, ops.take(k));
    lemma_prefix_next_le(rv0, ops, k);
    assert((at_k.next_id as u64) as int == at_k.next_id) by {
        lemma_next_id_monotone(rv0, ops.take(k));
    }
    assert forall|j: int| 0 <= j <= k implies !apply_ops(rv0, ops.take(j)).live(id) by {
        lemma_prefix_next_le(rv0, ops, j);
        lemma_bounded_run(rv0, ops.take(j));
        assert(ops.take(k) =~= ops.take(j) + ops.take(k).skip(j));
        lemma_apply_ops_append(rv0, ops.take(j), ops.take(k).skip(j));
        lemma_next_id_monotone(apply_ops(rv0, ops.take(j)), ops.take(k).skip(j));
        // every id live at j lies below the counter at j, which is at most
        // the assigned id
        assert(apply_ops(rv0, ops.take(j)).next_id <= at_k.next_id);
    }
    assert forall|j: int| k < j <= ops.len() implies (apply_ops(rv0, ops.take(j)).live(id)
        <==> !deregistered_between(ops, id, k, j)) by {
        lemma_live_iff(rv0, ops, k, j);
    }
}

} // verus!
