use vstd::prelude::*;

use crate::env::{local_slot, shared_slot, JNIEnv, RefKind, Slot};
use crate::errors::Result;
use crate::global_ref::GlobalRef;
use crate::objects::JObject;
use crate::release::{
    owner_step, release_action_spec, release_report, release_report_spec, ContextSource, OwnerOp,
    ReleaseReport,
};

verus! {

/// A weak global reference: it does not keep its referent from collection,
/// and may be used from any thread.
///
/// Its owners share one entry of the runtime's reference table; the entry
/// keeps their count.
#[derive(Debug)]
pub struct WeakRef {
    raw: u64,
}

impl View for WeakRef {
    type V = u64;

    closed spec fn view(&self) -> u64 {
        self.raw
    }
}

impl WeakRef {
    /// Adopts the token of a weak global reference that the runtime created.
    pub(crate) fn from_raw(raw: u64) -> (r: WeakRef)
        ensures
            r@ == raw,
    {
        WeakRef { raw }
    }

    /// The raw weak token, from which another weak reference to the same
    /// referent can be created.
    pub fn as_raw(&self) -> (r: u64)
        ensures
            r == self@,
    {
        self.raw
    }

    /// One more owner of this same weak entry; no new entry is created.
    pub fn share(&self, env: &mut JNIEnv) -> (r: WeakRef)
        requires
            old(env).wf(),
            old(env).holds(self@, RefKind::Weak),
            old(env).slot(self@).owners < u64::MAX,
        ensures
            final(env).wf(),
            r@ == self@,
            final(env).same_but_slots(old(env)),
            final(env).slots() == old(env).slots().update(
                self@ - 1,
                owner_step(old(env).slot(self@), OwnerOp::Share),
            ),
    {
        env.share_slot(self.raw);
        WeakRef { raw: self.raw }
    }

    /// Creates a local reference to the referent, or none if it has been
    /// collected: a collected referent is an ordinary outcome, not an error,
    /// and a pending exception does not stand in the way. While the local
    /// reference lives, the referent cannot be collected.
    pub fn upgrade_local<'e>(&self, env: &mut JNIEnv<'e>) -> (r: Result<Option<JObject<'e>>>)
        requires
            old(env).wf(),
            old(env).has_room(),
            old(env).holds(self@, RefKind::Weak),
        ensures
            final(env).wf(),
            r is Ok,
            old(env).referent(self@) is None ==> r->Ok_0 is None && final(env).unchanged(old(env)),
            old(env).referent(self@) matches Some(o) ==> r->Ok_0 is Some
                && r->Ok_0->Some_0@ == old(env).next_token() && final(env).same_but_slots(old(env))
                && final(env).slots() == old(env).slots().push(local_slot(o))
                && final(env).referent(r->Ok_0->Some_0@) == Some(o),
    {
        let r = env.new_local_ref(JObject::from_raw(self.raw));
        if r.is_null() {
            Ok(None)
        } else {
            Ok(Some(r))
        }
    }

    /// Creates a new strong global reference to the referent, or none if it
    /// has been collected; a pending exception does not stand in the way.
    ///
    /// The runtime may hand out a global reference to a collected object, so
    /// the new reference is compared with null, and released again if it is
    /// the same.
    pub fn upgrade_global(&self, env: &mut JNIEnv) -> (r: Result<Option<GlobalRef>>)
        requires
            old(env).wf(),
            old(env).has_room(),
            old(env).holds(self@, RefKind::Weak),
        ensures
            final(env).wf(),
            r is Ok,
            final(env).same_but_slots(old(env)),
            old(env).referent(self@) is None ==> r->Ok_0 is None && final(env).slots() == old(env).slots().push(
                (Slot { obj: old(env).slot(self@).obj, kind: RefKind::Global, owners: 0, live: false }),
            ),
            old(env).referent(self@) matches Some(o) ==> r->Ok_0 is Some
                && r->Ok_0->Some_0@ == old(env).next_token()
                && final(env).slots() == old(env).slots().push(shared_slot(o, RefKind::Global))
                && final(env).holds(r->Ok_0->Some_0@, RefKind::Global)
                && final(env).referent(r->Ok_0->Some_0@) == Some(o),
    {
        let r = env.new_global_ref(JObject::from_raw(self.raw));
        if env.is_same_object(r.as_obj(), JObject::null()) {
            r.release(env, ContextSource::Current);
            Ok(None)
        } else {
            Ok(Some(r))
        }
    }

    /// Releases this owner from a thread that obtained its context as
    /// `source` says. The last owner deletes the weak entry, with a pending
    /// exception too, and warns if the thread was not attached; if no
    /// context could be had, the entry is left behind and the failure
    /// reported. Nothing here fails outward.
    pub fn release(self, env: &mut JNIEnv, source: ContextSource) -> (r: ReleaseReport)
        requires
            old(env).wf(),
            old(env).holds(self@, RefKind::Weak),
        ensures
            final(env).wf(),
            final(env).same_but_slots(old(env)),
            final(env).slots() == old(env).slots().update(
                self@ - 1,
                owner_step(old(env).slot(self@), OwnerOp::Release(source)),
            ),
            r == release_report_spec(
                RefKind::Weak,
                source,
                release_action_spec(old(env).slot(self@).owners, source),
                old(env).pending(),
            ),
    {
        let action = env.drop_owner(self.raw, source);
        release_report(RefKind::Weak, source, action, env.exception_check())
    }
}

} // verus!
