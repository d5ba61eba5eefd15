use vstd::prelude::*;

use crate::env::{JNIEnv, RefKind};
use crate::objects::{JObject, NULL};
use crate::release::{
    owner_step, release_action_spec, release_report, release_report_spec, ContextSource, OwnerOp,
    ReleaseReport,
};

verus! {

/// A strong global reference: it pins its referent until the last of its
/// owners releases it, and may be used from any thread.
///
/// Its owners share one entry of the runtime's reference table; the entry
/// keeps their count.
#[derive(Debug)]
pub struct GlobalRef {
    raw: u64,
}

impl View for GlobalRef {
    type V = u64;

    closed spec fn view(&self) -> u64 {
        self.raw
    }
}

impl GlobalRef {
    /// Adopts the token of a global reference that the runtime created.
    pub(crate) fn from_raw(raw: u64) -> (r: GlobalRef)
        ensures
            r@ == raw,
    {
        GlobalRef { raw }
    }

    /// The referent, as a handle that may be used wherever an object is.
    /// The handle borrows this reference and cannot outlive it.
    pub fn as_obj<'a>(&'a self) -> (r: JObject<'a>)
        ensures
            r@ == self@,
    {
        JObject::from_raw(self.raw)
    }

    /// One more owner of the same runtime entry; no new entry is created.
    pub fn share(&self, env: &mut JNIEnv) -> (r: GlobalRef)
        requires
            old(env).wf(),
            self@ != NULL ==> old(env).holds(self@, RefKind::Global) && old(env).slot(self@).owners
                < u64::MAX,
        ensures
            final(env).wf(),
            r@ == self@,
            final(env).same_but_slots(old(env)),
            self@ == NULL ==> final(env).slots() == old(env).slots(),
            self@ != NULL ==> final(env).slots() == old(env).slots().update(
                self@ - 1,
                owner_step(old(env).slot(self@), OwnerOp::Share),
            ),
    {
        if self.raw != NULL {
            env.share_slot(self.raw);
        }
        GlobalRef { raw: self.raw }
    }

    /// Releases this owner from a thread that obtained its context as
    /// `source` says. The last owner deletes the runtime's entry, with a
    /// pending exception too; if no context could be had, the entry is left
    /// behind and the failure reported. Nothing here fails outward.
    pub fn release(self, env: &mut JNIEnv, source: ContextSource) -> (r: ReleaseReport)
        requires
            old(env).wf(),
            self@ != NULL ==> old(env).holds(self@, RefKind::Global),
        ensures
            final(env).wf(),
            final(env).same_but_slots(old(env)),
            self@ == NULL ==> final(env).slots() == old(env).slots() && r == (ReleaseReport {
                deleted: false,
                warned: false,
                logged: None,
            }),
            self@ != NULL ==> final(env).slots() == old(env).slots().update(
                self@ - 1,
                owner_step(old(env).slot(self@), OwnerOp::Release(source)),
            ) && r == release_report_spec(
                RefKind::Global,
                source,
                release_action_spec(old(env).slot(self@).owners, source),
                old(env).pending(),
            ),
    {
        if self.raw == NULL {
            return ReleaseReport { deleted: false, warned: false, logged: None };
        }
        let action = env.drop_owner(self.raw, source);
        release_report(RefKind::Global, source, action, env.exception_check())
    }
}

} // verus!
