//! The reference-count ownership wrapper.
//!
//! A [`HandleRef`] owns exactly one increment of one engine object's
//! reference count. It is move-only: it has no clone, and release consumes
//! it, so the one decrement it owes cannot be skipped or duplicated through
//! the verified surface. The only legal way to produce a second owning
//! wrapper over the same object is [`HandleRef::new_ref`], which performs
//! its own increment first.

use vstd::prelude::*;
use crate::engine::{counts_bumped, misc_same, Engine, ObjectKind};
use crate::status::ErrorKind;

verus! {

/// Ownership of exactly one reference-count increment of one engine object.
pub struct HandleRef {
    id: usize,
    kind: ObjectKind,
}

impl HandleRef {
    /// The slot of the owned object.
    pub closed spec fn id(self) -> usize {
        self.id
    }

    /// The interface kind of the owned object.
    pub closed spec fn kind(self) -> ObjectKind {
        self.kind
    }

    /// The wrapper names a live object of its kind, so the increment it
    /// owns is still outstanding.
    pub open spec fn valid(self, e: Engine) -> bool {
        e.live(self.id(), self.kind())
    }

    /// Takes ownership of a raw object that already carries one un-owned
    /// increment (for example one freshly returned from a create call);
    /// performs no increment of its own. Fails exactly on the null handle.
    pub fn wrap(e: &Engine, raw: usize, kind: ObjectKind) -> (r: Result<HandleRef, ErrorKind>)
        requires
            raw != 0 ==> e.live(raw, kind),
        ensures
            raw == 0 ==> (r matches Err(k) && k == ErrorKind::NullHandle),
            raw != 0 ==> (r matches Ok(h) && h.id() == raw && h.kind() == kind && h.valid(*e)),
    {
        if raw == 0 {
            Err(ErrorKind::NullHandle)
        } else {
            Ok(HandleRef { id: raw, kind })
        }
    }

    /// Takes ownership of an increment known to be outstanding and
    /// un-owned: [`wrap`](Self::wrap) for a raw handle that cannot be null.
    pub(crate) fn adopt(e: &Engine, raw: usize, kind: ObjectKind) -> (h: HandleRef)
        requires
            e.live(raw, kind),
        ensures
            h.id() == raw,
            h.kind() == kind,
            h.valid(*e),
    {
        HandleRef { id: raw, kind }
    }

    /// The only legal duplication path: wraps a raw object obtained from
    /// elsewhere (for example a callback argument) by performing exactly
    /// one increment first.
    pub fn new_ref(e: &mut Engine, raw: usize, kind: ObjectKind) -> (h: HandleRef)
        requires
            old(e).aligned(),
            old(e).live(raw, kind),
            old(e).rc(raw) < u64::MAX,
        ensures
            counts_bumped(*old(e), *final(e), raw as int, 1),
            final(e).payloads@ == old(e).payloads@,
            misc_same(*old(e), *final(e)),
            old(e).wf() ==> final(e).wf(),
            h.id() == raw,
            h.kind() == kind,
            h.valid(*final(e)),
    {
        e.add_ref(raw);
        HandleRef { id: raw, kind }
    }

    /// Releases the one increment this wrapper owns: performs exactly one
    /// decrement, unconditionally, and consumes the wrapper, so it can
    /// neither be skipped nor run twice.
    pub fn release(self, e: &mut Engine)
        requires
            old(e).aligned(),
            self.valid(*old(e)),
        ensures
            counts_bumped(*old(e), *final(e), self.id() as int, -1),
            final(e).payloads@ == old(e).payloads@,
            misc_same(*old(e), *final(e)),
    {
        e.release_ref(self.id);
    }

    /// The raw slot index, for handing back to engine-facing calls.
    pub fn raw_id(&self) -> (r: usize)
        ensures
            r == self.id(),
    {
        self.id
    }
}

/// One bookkeeping step of a wrapper's life: its construction (an
/// increment: `new_ref`, or adopting a create call's un-owned increment) or
/// its destruction (the one decrement of release).
#[derive(Clone, Copy, Debug, PartialEq, Eq, Structural)]
pub enum HandleOp {
    Acquire,
    Release,
}

/// The net reference-count change a sequence of wrapper lifecycle steps
/// applies to an object: each acquisition adds one, each release takes one.
pub open spec fn net_change(ops: Seq<HandleOp>) -> int
    decreases ops.len(),
{
    if ops.len() == 0 {
        0
    } else {
        net_change(ops.drop_last()) + (if ops.last() is Acquire {
            1int
        } else {
            -1int
        })
    }
}

/// How many steps of a sequence are acquisitions.
pub open spec fn n_acquires(ops: Seq<HandleOp>) -> int
    decreases ops.len(),
{
    if ops.len() == 0 {
        0
    } else {
        n_acquires(ops.drop_last()) + (if ops.last() is Acquire {
            1int
        } else {
            0int
        })
    }
}

/// How many steps of a sequence are releases.
pub open spec fn n_releases(ops: Seq<HandleOp>) -> int
    decreases ops.len(),
{
    if ops.len() == 0 {
        0
    } else {
        n_releases(ops.drop_last()) + (if ops.last() is Release {
            1int
        } else {
            0int
        })
    }
}

/// The net change of any step sequence is the number of acquisitions minus
/// the number of releases.
pub proof fn lemma_net_is_difference(ops: Seq<HandleOp>)
    ensures
        net_change(ops) == n_acquires(ops) - n_releases(ops),
    decreases ops.len(),
{
    if ops.len() > 0 {
        lemma_net_is_difference(ops.drop_last());
    }
}

/// No leak and no double release: for every sequence of increments and
/// decrements driven purely through wrapper construction and destruction,
/// the net reference-count change is zero once every wrapper constructed
/// for the object has been released exactly once — that is, once the
/// sequence holds as many releases as acquisitions, in any order.
pub proof fn lemma_balanced_lifecycle(ops: Seq<HandleOp>)
    requires
        n_acquires(ops) == n_releases(ops),
    ensures
        net_change(ops) == 0,
{
    lemma_net_is_difference(ops);
}

} // verus!
