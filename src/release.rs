use vstd::prelude::*;

use crate::env::{RefKind, Slot};
use crate::errors::Error;

verus! {

/// How the releasing thread came by an execution context.
#[derive(Clone, Copy, Debug, PartialEq, Eq, Structural)]
pub enum ContextSource {
    /// The thread was already attached.
    Current,
    /// The thread was not attached and has been attached for the release.
    Attached,
    /// The thread was not attached and attaching it failed.
    AttachFailed,
}

/// What releasing one owner of a shared reference does to its entry.
#[derive(Clone, Copy, Debug, PartialEq, Eq, Structural)]
pub enum ReleaseAction {
    /// Other owners remain: the entry stays.
    Keep,
    /// The last owner is gone and a context was had: the entry is deleted.
    Delete,
    /// The last owner is gone but no context could be had: the entry is left behind.
    Leak,
}

/// What a release reports to its caller, who cannot receive an error from it.
#[derive(Clone, Copy, Debug, PartialEq, Eq, Structural)]
pub struct ReleaseReport {
    /// The runtime's entry was deleted.
    pub deleted: bool,
    /// A warning is due: a weak reference was released from a thread that
    /// was not attached.
    pub warned: bool,
    /// A failure that goes to the diagnostic log, since it cannot be returned.
    pub logged: Option<Error>,
}

/// One event in the life of a shared reference.
#[derive(Clone, Copy, Debug, PartialEq, Eq, Structural)]
pub enum OwnerOp {
    /// One more owner.
    Share,
    /// One owner fewer, released with a context obtained as given.
    Release(ContextSource),
}

pub open spec fn release_action_spec(owners: u64, source: ContextSource) -> ReleaseAction {
    if owners > 1 {
        ReleaseAction::Keep
    } else if source == ContextSource::AttachFailed {
        ReleaseAction::Leak
    } else {
        ReleaseAction::Delete
    }
}

/// Decides what releasing one of `owners` owners does.
pub fn release_action(owners: u64, source: ContextSource) -> (r: ReleaseAction)
    requires
        owners > 0,
    ensures
        r == release_action_spec(owners, source),
{
    if owners > 1 {
        ReleaseAction::Keep
    } else if source == ContextSource::AttachFailed {
        ReleaseAction::Leak
    } else {
        ReleaseAction::Delete
    }
}

pub open spec fn release_report_spec(
    kind: RefKind,
    source: ContextSource,
    action: ReleaseAction,
    pending: bool,
) -> ReleaseReport {
    ReleaseReport {
        deleted: action == ReleaseAction::Delete,
        warned: kind == RefKind::Weak && action != ReleaseAction::Keep && source
            != ContextSource::Current,
        logged: if action == ReleaseAction::Leak {
            Some(Error::AttachFailed)
        } else if action == ReleaseAction::Delete && kind == RefKind::Global && pending {
            Some(Error::JavaException)
        } else {
            None
        },
    }
}

/// The report of a release of a reference of kind `kind` that took `action`
/// while an exception was pending or not.
///
/// Deleting a global reference is followed by an exception check, which
/// reports a pending exception without clearing it; deleting a weak one is
/// not, and a weak one released from a thread that was not attached warns.
pub fn release_report(kind: RefKind, source: ContextSource, action: ReleaseAction, pending: bool) -> (r:
    ReleaseReport)
    ensures
        r == release_report_spec(kind, source, action, pending),
{
    let deleted = action == ReleaseAction::Delete;
    let warned = kind == RefKind::Weak && action != ReleaseAction::Keep && source
        != ContextSource::Current;
    let logged = if action == ReleaseAction::Leak {
        Some(Error::AttachFailed)
    } else if action == ReleaseAction::Delete && kind == RefKind::Global && pending {
        Some(Error::JavaException)
    } else {
        None
    };
    ReleaseReport { deleted, warned, logged }
}

/// The entry `s` after one owner event.
pub open spec fn owner_step(s: Slot, op: OwnerOp) -> Slot {
    match op {
        OwnerOp::Share => Slot { owners: (s.owners + 1) as u64, ..s },
        OwnerOp::Release(source) => match release_action_spec(s.owners, source) {
            ReleaseAction::Keep => Slot { owners: (s.owners - 1) as u64, ..s },
            ReleaseAction::Delete => Slot { owners: 0, live: false, ..s },
            ReleaseAction::Leak => Slot { owners: 0, ..s },
        },
    }
}

/// The entry `s` after the events `ops`, in order.
pub open spec fn replay(s: Slot, ops: Seq<OwnerOp>) -> Slot
    decreases ops.len(),
{
    if ops.len() == 0 {
        s
    } else {
        replay(owner_step(s, ops[0]), ops.drop_first())
    }
}

/// Each event of `ops` comes from a handle still held, so the entry has an
/// owner before it, and no share takes the count past `u64::MAX`.
pub open spec fn held_throughout(s: Slot, ops: Seq<OwnerOp>) -> bool
    decreases ops.len(),
{
    ops.len() == 0 || (s.owners > 0 && (ops[0] == OwnerOp::Share ==> s.owners < u64::MAX)
        && held_throughout(owner_step(s, ops[0]), ops.drop_first()))
}

/// How many of the events `ops` delete the entry `s`.
pub open spec fn deletions(s: Slot, ops: Seq<OwnerOp>) -> nat
    decreases ops.len(),
{
    if ops.len() == 0 {
        0
    } else {
        (if s.live && !owner_step(s, ops[0]).live {
            1nat
        } else {
            0nat
        }) + deletions(owner_step(s, ops[0]), ops.drop_first())
    }
}

/// Every release in `ops` had a context to delete with.
pub open spec fn with_context(ops: Seq<OwnerOp>) -> bool {
    forall|i: int|
        0 <= i < ops.len() ==> #[trigger] ops[i] != OwnerOp::Release(ContextSource::AttachFailed)
}

proof fn lemma_replay_live_iff_owned(s: Slot, ops: Seq<OwnerOp>)
    requires
        s.live == (s.owners > 0),
        held_throughout(s, ops),
        with_context(ops),
    ensures
        replay(s, ops).live == (replay(s, ops).owners > 0),
        deletions(s, ops) == (if s.live && replay(s, ops).owners == 0 {
            1nat
        } else {
            0nat
        }),
    decreases ops.len(),
{
    if ops.len() > 0 {
        let next = owner_step(s, ops[0]);
        assert(ops[0] != OwnerOp::Release(ContextSource::AttachFailed));
        let rest = ops.drop_first();
        assert forall|i: int| 0 <= i < rest.len() implies #[trigger] rest[i]
            != OwnerOp::Release(ContextSource::AttachFailed) by {
            assert(rest[i] == ops[i + 1]);
        }
        lemma_replay_live_iff_owned(next, rest);
    }
}

/// A shared entry is deleted exactly once, by the release of its last
/// owner: from an entry held by its first owner, whatever shares and
/// releases follow (each by a handle still held, each release with a
/// context), the entry stays live exactly while it has owners, and it has
/// been deleted once if no owner is left and never otherwise.
pub proof fn lemma_deleted_once_at_last_release(s: Slot, ops: Seq<OwnerOp>)
    requires
        s.live,
        s.owners > 0,
        held_throughout(s, ops),
        with_context(ops),
    ensures
        replay(s, ops).live == (replay(s, ops).owners > 0),
        deletions(s, ops) <= 1,
        deletions(s, ops) == 1 <==> replay(s, ops).owners == 0,
{
    lemma_replay_live_iff_owned(s, ops);
}

/// Releasing the last owner from a thread that had to be attached first
/// deletes the entry and ends it, whether an exception is pending or not.
pub proof fn lemma_release_from_detached_thread(s: Slot, kind: RefKind, pending: bool)
    requires
        s.live,
        s.owners == 1,
    ensures
        release_report_spec(
            kind,
            ContextSource::Attached,
            release_action_spec(s.owners, ContextSource::Attached),
            pending,
        ).deleted,
        !owner_step(s, OwnerOp::Release(ContextSource::Attached)).live,
        owner_step(s, OwnerOp::Release(ContextSource::Attached)).owners == 0,
{
}

} // verus!
