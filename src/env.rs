use core::marker::PhantomData;

use vstd::prelude::*;

use crate::errors::{Error, Result};
use crate::global_ref::GlobalRef;
use crate::objects::{JObject, NULL};
use crate::release::{
    owner_step, release_action, release_action_spec, ContextSource, OwnerOp, ReleaseAction,
};
use crate::weak_ref::WeakRef;

verus! {

/// The three kinds of reference that the runtime hands out.
#[derive(Clone, Copy, Debug, PartialEq, Eq, Structural)]
pub enum RefKind {
    /// Valid within the frame that created it.
    Local,
    /// Pins its referent until deleted.
    Global,
    /// Does not pin its referent.
    Weak,
}

/// One entry of the runtime's reference table.
#[derive(Clone, Copy, Debug, PartialEq, Eq, Structural)]
pub struct Slot {
    /// Index of the referent in the object table.
    pub obj: u64,
    pub kind: RefKind,
    /// Number of shared handles (clones) that hold this entry; always 0 for locals.
    pub owners: u64,
    /// Whether the runtime still holds this entry (it has not been deleted).
    pub live: bool,
}

/// One pushed frame of local references.
#[derive(Clone, Copy, Debug, PartialEq, Eq, Structural)]
pub struct Frame {
    /// Length of the reference table when the frame was pushed.
    pub base: u64,
    /// The number of local references reserved for the frame.
    pub capacity: u32,
}

/// An execution context, together with the state of the runtime as the
/// foreign interface shows it: which objects are still reachable, every
/// reference created so far, the stack of local frames and the pending
/// exception flag.
///
/// The handle with token `t > 0` names entry `t - 1` of the reference table.
pub struct JNIEnv<'e> {
    objects: Vec<bool>,
    slots: Vec<Slot>,
    frames: Vec<Frame>,
    pending: bool,
    max_capacity: u32,
    lifetime: PhantomData<&'e ()>,
}

/// The reference table after the innermost frame, pushed when the table had
/// `base` entries, has ended: every local entry from `base` on is deleted.
pub open spec fn end_frame(slots: Seq<Slot>, base: int) -> Seq<Slot> {
    Seq::new(
        slots.len(),
        |i: int|
            if i >= base && slots[i].kind == RefKind::Local {
                Slot { live: false, ..slots[i] }
            } else {
                slots[i]
            },
    )
}

/// A fresh local entry for object `o`.
pub open spec fn local_slot(o: u64) -> Slot {
    Slot { obj: o, kind: RefKind::Local, owners: 0, live: true }
}

/// A fresh shared entry of kind `kind` for object `o`, held by one owner.
pub open spec fn shared_slot(o: u64, kind: RefKind) -> Slot {
    Slot { obj: o, kind, owners: 1, live: true }
}

impl<'e> JNIEnv<'e> {
    /// Whether objects may still be reached, by object index.
    pub closed spec fn objects(&self) -> Seq<bool> {
        self.objects@
    }

    /// The reference table.
    pub closed spec fn slots(&self) -> Seq<Slot> {
        self.slots@
    }

    /// The stack of local frames, innermost last.
    pub closed spec fn frames(&self) -> Seq<Frame> {
        self.frames@
    }

    /// Whether an exception is pending.
    pub closed spec fn pending(&self) -> bool {
        self.pending
    }

    /// The largest capacity a frame may ask for.
    pub closed spec fn max_capacity(&self) -> u32 {
        self.max_capacity
    }

    /// Token `t` names an entry that has not been deleted.
    pub open spec fn valid(&self, t: u64) -> bool {
        1 <= t <= self.slots().len() && self.slots()[t - 1].live
    }

    /// The entry that token `t` names.
    pub open spec fn slot(&self, t: u64) -> Slot {
        self.slots()[t - 1]
    }

    /// Token `t` may be handed to the runtime: it is null or valid.
    pub open spec fn handle_ok(&self, t: u64) -> bool {
        t == NULL || self.valid(t)
    }

    /// Object `o` has not been collected.
    pub open spec fn alive(&self, o: u64) -> bool {
        o < self.objects().len() && self.objects()[o as int]
    }

    /// The object that handle `t` reaches, if any: none for null, and none
    /// once the referent has been collected.
    pub open spec fn referent(&self, t: u64) -> Option<u64> {
        if t != NULL && self.valid(t) && self.alive(self.slot(t).obj) {
            Some(self.slot(t).obj)
        } else {
            None
        }
    }

    /// The token that the next created reference receives.
    pub open spec fn next_token(&self) -> u64 {
        (self.slots().len() + 1) as u64
    }

    /// Some live local or global reference keeps object `o` from collection.
    pub open spec fn pinned(&self, o: u64) -> bool {
        exists|i: int|
            0 <= i < self.slots().len() && #[trigger] self.slots()[i].obj == o
                && self.slots()[i].live && self.slots()[i].kind != RefKind::Weak
    }

    /// Room for one more object and one more reference in the tables.
    pub open spec fn has_room(&self) -> bool {
        self.slots().len() + 2 < u64::MAX && self.objects().len() + 2 < u64::MAX
    }

    /// Room for `n` more objects and references, and two more besides.
    pub open spec fn has_room_for(&self, n: int) -> bool {
        self.slots().len() + n + 2 < u64::MAX && self.objects().len() + n + 2 < u64::MAX
    }

    /// Everything but the reference table is as in `other`.
    pub open spec fn same_but_slots(&self, other: &JNIEnv<'e>) -> bool {
        self.objects() == other.objects() && self.frames() == other.frames()
            && self.pending() == other.pending() && self.max_capacity() == other.max_capacity()
    }

    /// Everything but the object table is as in `other`.
    pub open spec fn same_but_objects(&self, other: &JNIEnv<'e>) -> bool {
        self.slots() == other.slots() && self.frames() == other.frames()
            && self.pending() == other.pending() && self.max_capacity() == other.max_capacity()
    }

    /// Everything but the frame stack is as in `other`.
    pub open spec fn same_but_frames(&self, other: &JNIEnv<'e>) -> bool {
        self.objects() == other.objects() && self.slots() == other.slots()
            && self.pending() == other.pending() && self.max_capacity() == other.max_capacity()
    }

    /// Nothing differs from `other`.
    pub open spec fn unchanged(&self, other: &JNIEnv<'e>) -> bool {
        self.same_but_frames(other) && self.frames() == other.frames()
    }

    /// The tables are consistent.
    pub open spec fn wf(&self) -> bool {
        &&& self.slots().len() < u64::MAX
        &&& self.objects().len() < u64::MAX
        &&& forall|i: int|
            0 <= i < self.slots().len() ==> (#[trigger] self.slots()[i]).obj
                < self.objects().len()
        &&& forall|i: int|
            0 <= i < self.slots().len() ==> ((#[trigger] self.slots()[i]).kind == RefKind::Local
                ==> self.slots()[i].owners == 0)
        &&& forall|i: int|
            0 <= i < self.slots().len() ==> ((#[trigger] self.slots()[i]).owners > 0
                ==> self.slots()[i].live)
        &&& forall|j: int|
            0 <= j < self.frames().len() ==> (#[trigger] self.frames()[j]).base
                <= self.slots().len()
    }

    /// A context with no objects, no references and no frames, whose frames
    /// may hold at most `max_capacity` locals.
    pub fn new(max_capacity: u32) -> (r: JNIEnv<'e>)
        ensures
            r.wf(),
            r.objects() == Seq::<bool>::empty(),
            r.slots() == Seq::<Slot>::empty(),
            r.frames() == Seq::<Frame>::empty(),
            !r.pending(),
            r.max_capacity() == max_capacity,
    {
        JNIEnv {
            objects: Vec::new(),
            slots: Vec::new(),
            frames: Vec::new(),
            pending: false,
            max_capacity,
            lifetime: PhantomData,
        }
    }

    /// Appends `s` to the reference table and returns its token.
    fn add_slot(&mut self, s: Slot) -> (t: u64)
        requires
            old(self).wf(),
            old(self).slots().len() + 2 < u64::MAX,
            s.obj < old(self).objects().len(),
            s.kind == RefKind::Local ==> s.owners == 0,
            s.live,
        ensures
            final(self).wf(),
            final(self).same_but_slots(old(self)),
            final(self).slots() == old(self).slots().push(s),
            t == old(self).next_token(),
            final(self).valid(t),
            final(self).slot(t) == s,
    {
        let t = self.slots.len() as u64 + 1;
        self.slots.push(s);
        assert(forall|i: int|
            0 <= i < old(self).slots().len() ==> self.slots()[i] == old(self).slots()[i]);
        assert(forall|j: int|
            0 <= j < self.frames().len() ==> self.frames()[j] == old(self).frames()[j]);
        t
    }

    /// The table index of token `t`.
    fn index_of(&self, t: u64) -> (i: usize)
        requires
            1 <= t <= self.slots().len(),
        ensures
            i == t - 1,
    {
        let n = self.slots.len();
        assert(t - 1 < n);
        (t - 1) as usize
    }

    /// The object that handle `obj` reaches, if any.
    fn referent_of(&self, obj: JObject<'_>) -> (r: Option<u64>)
        requires
            self.wf(),
            self.handle_ok(obj@),
        ensures
            r == self.referent(obj@),
    {
        let t = obj.into_raw();
        if t == NULL {
            return None;
        }
        let n_objects = self.objects.len();
        let s = self.slots[self.index_of(t)];
        if s.live && s.obj < n_objects as u64 && self.objects[s.obj as usize] {
            Some(s.obj)
        } else {
            None
        }
    }

    /// Opens a frame that reserves room for `capacity` local references.
    ///
    /// A capacity below zero, or above the runtime's limit, is refused and no
    /// frame is opened, so that no pop is owed. A pending exception does not
    /// stand in the way.
    pub fn push_local_frame(&mut self, capacity: i32) -> (r: Result<()>)
        requires
            old(self).wf(),
        ensures
            final(self).wf(),
            capacity < 0 ==> r == Err::<(), Error>(Error::InvalidCapacity) && final(self).unchanged(
                old(self),
            ),
            capacity >= 0 && capacity > old(self).max_capacity() ==> r == Err::<(), Error>(
                Error::ResourceExhausted,
            ) && final(self).unchanged(old(self)),
            0 <= capacity <= old(self).max_capacity() ==> r == Ok::<(), Error>(())
                && final(self).same_but_frames(old(self)) && final(self).frames() == old(self).frames().push(
                (Frame { base: old(self).slots().len() as u64, capacity: capacity as u32 }),
            ),
    {
        if capacity < 0 {
            return Err(Error::InvalidCapacity);
        }
        if capacity as u32 > self.max_capacity {
            return Err(Error::ResourceExhausted);
        }
        let base = self.slots.len() as u64;
        self.frames.push(Frame { base, capacity: capacity as u32 });
        assert(forall|j: int|
            0 <= j < old(self).frames().len() ==> self.frames()[j] == old(self).frames()[j]);
        Ok(())
    }

    /// Ends the innermost frame: every local reference created since it was
    /// pushed is deleted, and the referent of `keep`, if it has one, is handed
    /// back as a new local reference of the enclosing frame. With a null
    /// `keep`, or one whose referent was collected, the null handle comes
    /// back. A pending exception does not stand in the way.
    pub fn pop_local_frame(&mut self, keep: JObject<'_>) -> (r: JObject<'e>)
        requires
            old(self).wf(),
            old(self).has_room(),
            old(self).frames().len() > 0,
            old(self).handle_ok(keep@),
        ensures
            final(self).wf(),
            final(self).objects() == old(self).objects(),
            final(self).pending() == old(self).pending(),
            final(self).max_capacity() == old(self).max_capacity(),
            final(self).frames() == old(self).frames().drop_last(),
            old(self).referent(keep@) is None ==> r@ == NULL && final(self).slots() == end_frame(
                old(self).slots(),
                old(self).frames().last().base as int,
            ),
            old(self).referent(keep@) matches Some(o) ==> r@ == old(self).next_token()
                && final(self).slots() == end_frame(
                old(self).slots(),
                old(self).frames().last().base as int,
            ).push(local_slot(o)) && final(self).valid(r@) && final(self).referent(r@) == Some(
                o,
            ),
    {
        let kept = self.referent_of(keep);
        let top = match self.frames.pop() {
            Some(f) => f,
            None => {
                return JObject::null();
            },
        };
        let ghost base = top.base as int;
        let ghost ended = end_frame(old(self).slots(), base);
        let n_slots = self.slots.len();
        assert(top.base <= n_slots);
        let mut i: usize = top.base as usize;
        while i < self.slots.len()
            invariant
                self.slots().len() == old(self).slots().len(),
                ended == end_frame(old(self).slots(), base),
                base <= i <= self.slots().len(),
                self.objects() == old(self).objects(),
                self.pending() == old(self).pending(),
                self.max_capacity() == old(self).max_capacity(),
                self.frames() == old(self).frames().drop_last(),
                forall|k: int| 0 <= k < i ==> self.slots()[k] == ended[k],
                forall|k: int| i <= k < self.slots().len() ==> self.slots()[k] == old(self).slots()[k],
            decreases self.slots().len() - i,
        {
            let s = self.slots[i];
            if s.kind == RefKind::Local {
                self.slots[i] = Slot { obj: s.obj, kind: s.kind, owners: s.owners, live: false };
            }
            assert(self.slots()[i as int] == ended[i as int]);
            i += 1;
        }
        assert(self.slots() =~= ended);
        assert(self.wf()) by {
            assert(forall|j: int|
                0 <= j < self.frames().len() ==> self.frames()[j] == old(self).frames()[j]);
        }
        match kept {
            None => JObject::null(),
            Some(o) => JObject::from_raw(self.add_slot(Slot { obj: o, kind: RefKind::Local, owners: 0, live: true })),
        }
    }

    /// The number of frames pushed and not yet ended.
    pub fn frame_depth(&self) -> (r: usize)
        ensures
            r == self.frames().len(),
    {
        self.frames.len()
    }

    /// Whether `obj` names a reference that the runtime still holds.
    pub fn is_valid_ref(&self, obj: JObject<'_>) -> (r: bool)
        ensures
            r == self.valid(obj@),
    {
        let t = obj.into_raw();
        let n_slots = self.slots.len();
        if t == NULL || t > n_slots as u64 {
            return false;
        }
        self.slots[self.index_of(t)].live
    }

    /// Whether an exception is pending.
    pub fn exception_check(&self) -> (r: bool)
        ensures
            r == self.pending(),
    {
        self.pending
    }

    /// Raises an exception, which stays pending until cleared.
    pub fn throw(&mut self)
        ensures
            final(self).pending(),
            final(self).objects() == old(self).objects(),
            final(self).slots() == old(self).slots(),
            final(self).frames() == old(self).frames(),
            final(self).max_capacity() == old(self).max_capacity(),
    {
        self.pending = true;
    }

    /// Clears the pending exception, if any.
    pub fn exception_clear(&mut self)
        ensures
            !final(self).pending(),
            final(self).objects() == old(self).objects(),
            final(self).slots() == old(self).slots(),
            final(self).frames() == old(self).frames(),
            final(self).max_capacity() == old(self).max_capacity(),
    {
        self.pending = false;
    }

    /// Creates a new object and returns a local reference to it.
    pub fn new_object(&mut self) -> (r: JObject<'e>)
        requires
            old(self).wf(),
            old(self).has_room(),
        ensures
            final(self).wf(),
            final(self).objects() == old(self).objects().push(true),
            final(self).slots() == old(self).slots().push(
                local_slot(old(self).objects().len() as u64),
            ),
            final(self).frames() == old(self).frames(),
            final(self).pending() == old(self).pending(),
            final(self).max_capacity() == old(self).max_capacity(),
            r@ == old(self).next_token(),
            final(self).referent(r@) == Some(old(self).objects().len() as u64),
    {
        let o = self.objects.len() as u64;
        self.objects.push(true);
        assert(forall|i: int|
            0 <= i < old(self).objects().len() ==> self.objects()[i] == old(self).objects()[i]);
        assert(forall|i: int|
            0 <= i < self.slots().len() ==> self.slots()[i] == old(self).slots()[i]);
        assert(forall|j: int|
            0 <= j < self.frames().len() ==> self.frames()[j] == old(self).frames()[j]);
        let t = self.add_slot(Slot { obj: o, kind: RefKind::Local, owners: 0, live: true });
        JObject::from_raw(t)
    }

    /// Creates a local reference to the referent of `obj`.
    ///
    /// A null handle, or one whose referent has been collected, gives the
    /// null handle and creates nothing. A pending exception does not stand
    /// in the way.
    pub fn new_local_ref(&mut self, obj: JObject<'_>) -> (r: JObject<'e>)
        requires
            old(self).wf(),
            old(self).has_room(),
            old(self).handle_ok(obj@),
        ensures
            final(self).wf(),
            old(self).referent(obj@) is None ==> r@ == NULL && final(self).unchanged(old(self)),
            old(self).referent(obj@) matches Some(o) ==> r@ == old(self).next_token()
                && final(self).same_but_slots(old(self)) && final(self).slots() == old(self).slots().push(local_slot(o))
                && final(self).referent(r@) == Some(o),
    {
        match self.referent_of(obj) {
            None => JObject::null(),
            Some(o) => {
                let t = self.add_slot(Slot { obj: o, kind: RefKind::Local, owners: 0, live: true });
                JObject::from_raw(t)
            },
        }
    }

    /// Deletes the local reference `obj`; a null handle is left alone.
    pub fn delete_local_ref(&mut self, obj: JObject<'_>)
        requires
            old(self).wf(),
            old(self).handle_ok(obj@),
            obj@ != NULL ==> old(self).slot(obj@).kind == RefKind::Local,
        ensures
            final(self).wf(),
            final(self).same_but_slots(old(self)),
            obj@ == NULL ==> final(self).slots() == old(self).slots(),
            obj@ != NULL ==> final(self).slots() == old(self).slots().update(
                obj@ - 1,
                Slot { live: false, ..old(self).slot(obj@) },
            ),
    {
        let t = obj.into_raw();
        if t == NULL {
            return;
        }
        let i = self.index_of(t);
        let s = self.slots[i];
        self.slots[i] = Slot { obj: s.obj, kind: s.kind, owners: s.owners, live: false };
        assert(forall|j: int|
            0 <= j < self.frames().len() ==> self.frames()[j] == old(self).frames()[j]);
    }

    /// Creates a global reference to what `obj` names.
    ///
    /// The runtime does not promise a null result for a weak handle whose
    /// referent has been collected: the new entry then names a collected
    /// object. A null handle gives a null global reference. A pending
    /// exception does not stand in the way.
    pub fn new_global_ref(&mut self, obj: JObject<'_>) -> (r: GlobalRef)
        requires
            old(self).wf(),
            old(self).has_room(),
            old(self).handle_ok(obj@),
        ensures
            final(self).wf(),
            obj@ == NULL ==> r@ == NULL && final(self).unchanged(old(self)),
            obj@ != NULL ==> r@ == old(self).next_token() && final(self).same_but_slots(old(self))
                && final(self).slots() == old(self).slots().push(
                shared_slot(old(self).slot(obj@).obj, RefKind::Global),
            ),
    {
        let t = obj.into_raw();
        if t == NULL {
            return GlobalRef::from_raw(NULL);
        }
        let o = self.slots[self.index_of(t)].obj;
        let g = self.add_slot(Slot { obj: o, kind: RefKind::Global, owners: 1, live: true });
        GlobalRef::from_raw(g)
    }

    /// Creates a weak global reference to the referent of `obj`; none for a
    /// null handle or one whose referent has been collected. A pending
    /// exception does not stand in the way.
    pub fn new_weak_ref(&mut self, obj: JObject<'_>) -> (r: Option<WeakRef>)
        requires
            old(self).wf(),
            old(self).has_room(),
            old(self).handle_ok(obj@),
        ensures
            final(self).wf(),
            old(self).referent(obj@) is None ==> r is None && final(self).unchanged(old(self)),
            old(self).referent(obj@) matches Some(o) ==> r is Some && r->Some_0@ == old(self).next_token()
                && final(self).same_but_slots(old(self)) && final(self).slots() == old(self).slots().push(
                shared_slot(o, RefKind::Weak),
            ),
    {
        match self.referent_of(obj) {
            None => None,
            Some(o) => {
                let w = self.add_slot(Slot { obj: o, kind: RefKind::Weak, owners: 1, live: true });
                Some(WeakRef::from_raw(w))
            },
        }
    }

    /// Whether `a` and `b` reach the same object; a handle whose referent
    /// has been collected is the same as null. A pending exception does not
    /// stand in the way.
    pub fn is_same_object(&self, a: JObject<'_>, b: JObject<'_>) -> (r: bool)
        requires
            self.wf(),
            self.handle_ok(a@),
            self.handle_ok(b@),
        ensures
            r == (self.referent(a@) == self.referent(b@)),
    {
        let ra = self.referent_of(a);
        let rb = self.referent_of(b);
        match (ra, rb) {
            (None, None) => true,
            (Some(x), Some(y)) => x == y,
            _ => false,
        }
    }

    /// Token `t` names an entry that a live handle of kind `kind` holds.
    pub open spec fn holds(&self, t: u64, kind: RefKind) -> bool {
        self.valid(t) && self.slot(t).kind == kind && self.slot(t).owners > 0
    }

    /// Adds one owner to the shared entry `t`.
    pub(crate) fn share_slot(&mut self, t: u64)
        requires
            old(self).wf(),
            old(self).valid(t),
            old(self).slot(t).kind != RefKind::Local,
            old(self).slot(t).owners > 0,
            old(self).slot(t).owners < u64::MAX,
        ensures
            final(self).wf(),
            final(self).same_but_slots(old(self)),
            final(self).slots() == old(self).slots().update(
                t - 1,
                owner_step(old(self).slot(t), OwnerOp::Share),
            ),
    {
        let i = self.index_of(t);
        let s = self.slots[i];
        self.slots[i] = Slot { obj: s.obj, kind: s.kind, owners: s.owners + 1, live: s.live };
        assert(forall|j: int|
            0 <= j < self.frames().len() ==> self.frames()[j] == old(self).frames()[j]);
    }

    /// Takes one owner from the shared entry `t`, released with a context
    /// obtained as `source` says, and returns what became of the entry.
    pub(crate) fn drop_owner(&mut self, t: u64, source: ContextSource) -> (r: ReleaseAction)
        requires
            old(self).wf(),
            old(self).valid(t),
            old(self).slot(t).kind != RefKind::Local,
            old(self).slot(t).owners > 0,
        ensures
            final(self).wf(),
            final(self).same_but_slots(old(self)),
            r == release_action_spec(old(self).slot(t).owners, source),
            final(self).slots() == old(self).slots().update(
                t - 1,
                owner_step(old(self).slot(t), OwnerOp::Release(source)),
            ),
    {
        let i = self.index_of(t);
        let s = self.slots[i];
        let action = release_action(s.owners, source);
        let next = match action {
            ReleaseAction::Keep => Slot { obj: s.obj, kind: s.kind, owners: s.owners - 1, live: s.live },
            ReleaseAction::Delete => Slot { obj: s.obj, kind: s.kind, owners: 0, live: false },
            ReleaseAction::Leak => Slot { obj: s.obj, kind: s.kind, owners: 0, live: s.live },
        };
        self.slots[i] = next;
        assert(forall|j: int|
            0 <= j < self.frames().len() ==> self.frames()[j] == old(self).frames()[j]);
        action
    }

    /// Whether some live local or global reference keeps object `o` from collection.
    fn is_pinned(&self, o: u64) -> (r: bool)
        ensures
            r == self.pinned(o),
    {
        let mut i: usize = 0;
        while i < self.slots.len()
            invariant
                0 <= i <= self.slots().len(),
                forall|k: int|
                    0 <= k < i ==> !(#[trigger] self.slots()[k].obj == o && self.slots()[k].live
                        && self.slots()[k].kind != RefKind::Weak),
            decreases self.slots().len() - i,
        {
            let s = self.slots[i];
            if s.obj == o && s.live && s.kind != RefKind::Weak {
                return true;
            }
            i += 1;
        }
        false
    }

    /// Runs the collector: every object that no live local or global
    /// reference reaches is collected. Weak references do not keep theirs.
    pub fn collect_garbage(&mut self)
        requires
            old(self).wf(),
        ensures
            final(self).wf(),
            final(self).same_but_objects(old(self)),
            final(self).objects().len() == old(self).objects().len(),
            forall|o: int|
                0 <= o < old(self).objects().len() ==> #[trigger] final(self).objects()[o] == (old(
                    self,
                ).objects()[o] && old(self).pinned(o as u64)),
    {
        let n = self.objects.len();
        let mut o: usize = 0;
        while o < n
            invariant
                n == self.objects().len(),
                n == old(self).objects().len(),
                0 <= o <= n,
                self.same_but_objects(old(self)),
                forall|k: int|
                    0 <= k < o ==> #[trigger] self.objects()[k] == (old(self).objects()[k] && old(
                        self,
                    ).pinned(k as u64)),
                forall|k: int| o <= k < n ==> #[trigger] self.objects()[k] == old(self).objects()[k],
            decreases n - o,
        {
            if self.objects[o] {
                let p = self.is_pinned(o as u64);
                if !p {
                    self.objects[o] = false;
                }
            }
            o += 1;
        }
        assert(forall|i: int|
            0 <= i < self.slots().len() ==> self.slots()[i] == old(self).slots()[i]);
        assert(forall|j: int|
            0 <= j < self.frames().len() ==> self.frames()[j] == old(self).frames()[j]);
    }

    /// Runs `body` inside a new frame of `capacity` locals, then ends the
    /// frame, keeping only the object that `body` returns.
    ///
    /// The frame is ended on both outcomes of `body`, and an error of
    /// `body` is returned after that, as it was. A refused capacity opens no
    /// frame and runs nothing.
    pub fn with_local_frame<F>(&mut self, capacity: i32, body: F) -> (r: Result<JObject<'e>>) where
        F: FnOnce(JNIEnv<'e>) -> (JNIEnv<'e>, Result<JObject<'e>>),

        requires
            old(self).wf(),
            capacity >= 0 ==> old(self).has_room_for(capacity as int),
            0 <= capacity <= old(self).max_capacity() ==> forall|e: JNIEnv<'e>|
                e.pushed_from(old(self), capacity as u32) ==> #[trigger] call_requires(body, (e,)),
            forall|e: JNIEnv<'e>, out: (JNIEnv<'e>, Result<JObject<'e>>)|
                #[trigger] call_ensures(body, (e,), out) && e.pushed_from(old(self), capacity as u32)
                    ==> body_keeps_frames(e, out),
        ensures
            final(self).wf(),
            capacity < 0 ==> r == Err::<JObject<'e>, Error>(Error::InvalidCapacity) && final(self).unchanged(old(self)),
            capacity >= 0 && capacity > old(self).max_capacity() ==> r == Err::<JObject<'e>, Error>(
                Error::ResourceExhausted,
            ) && final(self).unchanged(old(self)),
            0 <= capacity <= old(self).max_capacity() ==> {
                &&& final(self).frames() == old(self).frames()
                &&& final(self).max_capacity() == old(self).max_capacity()
                &&& final(self).slots().len() >= old(self).slots().len()
                &&& forall|i: int|
                    old(self).slots().len() <= i < final(self).slots().len() && (#[trigger] final(self).slots()[i]).kind
                        == RefKind::Local && final(self).slots()[i].live ==> r is Ok && r->Ok_0@
                        != NULL && i == final(self).slots().len() - 1
                &&& exists|inner: JNIEnv<'e>, after: JNIEnv<'e>, res: Result<JObject<'e>>|
                    #[trigger] call_ensures(body, (inner,), (after, res))
                        && inner.pushed_from(old(self), capacity as u32)
                        && final(self).objects() == after.objects()
                        && final(self).pending() == after.pending()
                        && (res matches Err(e) ==> r == Err::<JObject<'e>, Error>(e)
                            && final(self).slots() == end_frame(after.slots(), old(self).slots().len() as int))
                        && (res matches Ok(k) ==> r is Ok
                            && (after.referent(k@) is None ==> r->Ok_0@ == NULL
                                && final(self).slots() == end_frame(after.slots(), old(self).slots().len() as int))
                            && (after.referent(k@) matches Some(o) ==> r->Ok_0@ == after.next_token()
                                && final(self).slots() == end_frame(after.slots(), old(self).slots().len() as int).push(local_slot(o))))
            },
    {
        let pushed = self.push_local_frame(capacity);
        if let Err(e) = pushed {
            return Err(e);
        }
        let ghost inner = *self;
        let mut taken = JNIEnv::new(0);
        core::mem::swap(self, &mut taken);
        let (back, res) = body(taken);
        *self = back;
        let ghost after = *self;
        let ghost outcome = res;
        assert(call_ensures(body, (inner,), (after, outcome)));
        match res {
            Ok(o) => {
                let kept = self.pop_local_frame(o);
                Ok(kept)
            },
            Err(e) => {
                self.pop_local_frame(JObject::null());
                Err(e)
            },
        }
    }

    /// This context is `outer` with a frame of `capacity` locals pushed.
    pub open spec fn pushed_from(&self, outer: &JNIEnv<'e>, capacity: u32) -> bool {
        &&& self.wf()
        &&& self.same_but_frames(outer)
        &&& self.frames() == outer.frames().push(
            (Frame { base: outer.slots().len() as u64, capacity }),
        )
    }
}

/// What a body run inside a frame must leave behind: consistent tables with
/// room to spare, the frame stack and limit it found, the table no shorter,
/// and the object it returns, if any, still a usable handle.
pub open spec fn body_keeps_frames<'e>(e: JNIEnv<'e>, out: (JNIEnv<'e>, Result<JObject<'e>>)) -> bool {
    &&& out.0.wf()
    &&& out.0.has_room()
    &&& out.0.frames() == e.frames()
    &&& out.0.max_capacity() == e.max_capacity()
    &&& out.0.slots().len() >= e.slots().len()
    &&& out.1 matches Ok(o) ==> out.0.handle_ok(o@)
}

/// Ending a frame releases exactly its locals: if a frame was pushed when
/// the table of `before` had its present length, and `filled` is the state
/// when it ends, with the frame still innermost, then every local reference
/// created in between is deleted, and every other entry is left as it was.
pub proof fn lemma_pop_releases_frame_locals(before: JNIEnv<'_>, capacity: u32, filled: JNIEnv<'_>)
    requires
        filled.frames() == before.frames().push(
            (Frame { base: before.slots().len() as u64, capacity }),
        ),
        before.slots().len() < u64::MAX,
        filled.slots().len() >= before.slots().len(),
    ensures
        end_frame(filled.slots(), filled.frames().last().base as int).len() == filled.slots().len(),
        forall|i: int|
            before.slots().len() <= i < filled.slots().len() && filled.slots()[i].kind
                == RefKind::Local ==> !(#[trigger] end_frame(
                filled.slots(),
                filled.frames().last().base as int,
            )[i]).live,
        forall|i: int|
            0 <= i < filled.slots().len() && (i < before.slots().len() || filled.slots()[i].kind
                != RefKind::Local) ==> #[trigger] end_frame(
                filled.slots(),
                filled.frames().last().base as int,
            )[i] == filled.slots()[i],
{
}

/// After a collection a weak reference reaches its object exactly when that
/// object was alive and some live local or global reference pinned it: so
/// an upgrade then yields a handle in the first case and the collected
/// signal in the second.
pub proof fn lemma_weak_referent_after_collection<'e>(before: JNIEnv<'e>, after: JNIEnv<'e>, w: u64)
    requires
        before.wf(),
        before.holds(w, RefKind::Weak),
        after.same_but_objects(&before),
        after.objects().len() == before.objects().len(),
        forall|o: int|
            0 <= o < before.objects().len() ==> #[trigger] after.objects()[o] == (
            before.objects()[o] && before.pinned(o as u64)),
    ensures
        after.referent(w) is Some <==> before.alive(before.slot(w).obj) && before.pinned(
            before.slot(w).obj,
        ),
        after.referent(w) is Some ==> after.referent(w) == Some(before.slot(w).obj),
{
    let o = before.slot(w).obj;
    assert(before.slots()[w - 1].obj < before.objects().len());
    assert(after.objects()[o as int] == (before.objects()[o as int] && before.pinned(o)));
}

} // verus!
