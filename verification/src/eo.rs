//! The generic object layer: typed wrappers around the opaque handles the
//! native libraries hand out.
//!
//! A native handle is nothing but an address; what makes it safe here is the
//! tag type that says what it points to, the owning wrapper that releases it
//! exactly once, and the shared wrapper whose clones and drops mirror the
//! native reference count.  The native destroy/ref/unref calls themselves
//! happen outside this crate; the ledgers below record each one the caller
//! is told to make, so the bookkeeping laws are stated and proved over them.

use vstd::prelude::*;

verus! {

/// Tag for the generic native object type all widget handles derive from.
/// Tags carry no data of their own: they exist to keep handles of different
/// native types apart.
pub enum Eo {
    Opaque,
}

/// Record of the native destroy calls a caller has been told to make, one
/// address per entry, in order.
pub struct DestroyLog {
    calls: Vec<usize>,
}

impl DestroyLog {
    /// The addresses destroyed so far, in order.
    pub closed spec fn view(self) -> Seq<usize> {
        self.calls@
    }

    /// How many times the given address has been destroyed.
    pub open spec fn destroy_count(self, addr: usize) -> nat {
        self@.to_multiset().count(addr)
    }

    /// An empty record: nothing destroyed yet.
    pub fn new() -> (log: DestroyLog)
        ensures
            log@ == Seq::<usize>::empty(),
    {
        DestroyLog { calls: Vec::new() }
    }

    /// How many destroy calls have been recorded in all.
    pub fn len(&self) -> (n: usize)
        ensures
            n == self@.len(),
    {
        self.calls.len()
    }

    /// The address of one recorded destroy call.
    pub fn entry(&self, i: usize) -> (a: usize)
        requires
            i < self@.len(),
        ensures
            a == self@[i as int],
    {
        self.calls[i]
    }
}

/// Record one destroy call owed on the given address; for the owning
/// wrappers of this crate, which alone give handles up.
pub(crate) fn record_destroy(log: &mut DestroyLog, a: usize)
    requires
        old(log)@.len() < usize::MAX,
    ensures
        final(log)@ == old(log)@.push(a),
{
    log.calls.push(a);
}

/// Exclusive ownership of one native handle.
///
/// Exactly one wrapper holds destruction rights over the address inside;
/// inspecting the address borrows the wrapper, while releasing it consumes
/// the wrapper, so no second release can ever be written.
pub struct OwnedHandle<T> {
    raw: usize,
    tag: core::marker::PhantomData<T>,
}

impl<T> OwnedHandle<T> {
    /// The native address this wrapper owns.
    pub closed spec fn addr(self) -> usize {
        self.raw
    }

    /// Wrap the address a native create call returned.  The native side
    /// reports failure as a null handle, which is surfaced here as `None`;
    /// a wrapper is never built around null.
    pub fn try_wrap(raw: usize) -> (r: Option<OwnedHandle<T>>)
        ensures
            r is Some <==> raw != 0,
            r is Some ==> r->0.addr() == raw,
    {
        if raw == 0 {
            None
        } else {
            Some(OwnedHandle { raw, tag: core::marker::PhantomData })
        }
    }

    /// Borrow the address, e.g. to hand it to a native call that inspects
    /// the object without consuming it.  Destruction rights stay here.
    pub fn as_raw(&self) -> (a: usize)
        ensures
            a == self.addr(),
    {
        self.raw
    }

    /// Give the handle up: the wrapper is consumed, one destroy of its
    /// address is recorded, and the address is returned so the caller can
    /// make the matching native destroy call.
    pub fn release(self, log: &mut DestroyLog) -> (a: usize)
        requires
            old(log)@.len() < usize::MAX,
        ensures
            a == self.addr(),
            final(log)@ == old(log)@.push(a),
    {
        let a = self.raw;
        log.calls.push(a);
        a
    }
}

/// Single destruction: recording the release of a handle adds exactly one
/// destroy of its address and none of any other, so across a wrapper's
/// lifetime — one wrap, one release, nothing else touching the record — its
/// native destroy happens exactly once.
pub proof fn lemma_release_single_destruction(log: DestroyLog, released: DestroyLog, addr: usize)
    requires
        released@ == log@.push(addr),
    ensures
        released.destroy_count(addr) == log.destroy_count(addr) + 1,
        forall|other: usize| other != addr ==> released.destroy_count(other) == log.destroy_count(other),
{
    broadcast use vstd::seq_lib::group_to_multiset_ensures;

    assert(released@.to_multiset() =~= log@.to_multiset().insert(addr));
}

/// Record of the native `ref`/`unref` traffic for one family of shared
/// handles, together with the number of wrappers currently alive.
pub struct RefLedger {
    refs: u64,
    unrefs: u64,
    live: u64,
}

impl RefLedger {
    /// Native `ref` calls made so far (a creation call counts as one: the
    /// native side hands the object over with one reference taken).
    pub closed spec fn refs(self) -> u64 {
        self.refs
    }

    /// Native `unref` calls made so far.
    pub closed spec fn unrefs(self) -> u64 {
        self.unrefs
    }

    /// Wrappers currently alive.
    pub closed spec fn live(self) -> u64 {
        self.live
    }

    /// Every reference the native side was asked to take is either still
    /// held by a live wrapper or has been given back by one `unref`.
    pub open spec fn balanced(self) -> bool {
        self.refs() == self.unrefs() + self.live()
    }

    /// A fresh ledger: no traffic, no wrappers.
    pub fn new() -> (l: RefLedger)
        ensures
            l.refs() == 0,
            l.unrefs() == 0,
            l.live() == 0,
            l.balanced(),
    {
        RefLedger { refs: 0, unrefs: 0, live: 0 }
    }

    /// Native `ref` calls made so far, for inspection.
    pub fn ref_calls(&self) -> (n: u64)
        ensures
            n == self.refs(),
    {
        self.refs
    }

    /// Native `unref` calls made so far, for inspection.
    pub fn unref_calls(&self) -> (n: u64)
        ensures
            n == self.unrefs(),
    {
        self.unrefs
    }

    /// Wrappers currently alive, for inspection.
    pub fn live_count(&self) -> (n: u64)
        ensures
            n == self.live(),
    {
        self.live
    }
}

/// Shared ownership of one native handle whose lifetime the native library
/// itself reference-counts.
///
/// The wrapper never destroys the object: every clone stands for one native
/// `ref` call and every drop for one native `unref` call, so the host-side
/// count is a view onto the native count, not a second count beside it.
pub struct SharedHandle<T> {
    raw: usize,
    tag: core::marker::PhantomData<T>,
}

impl<T> SharedHandle<T> {
    /// The native address this wrapper shares.
    pub closed spec fn addr(self) -> usize {
        self.raw
    }

    /// Wrap the address a native acquisition call returned, recording the
    /// one reference the native side took for it.  Null means the
    /// acquisition failed and nothing is recorded.
    pub fn acquire(raw: usize, ledger: &mut RefLedger) -> (r: Option<SharedHandle<T>>)
        requires
            old(ledger).refs() < u64::MAX,
            old(ledger).live() < u64::MAX,
        ensures
            r is Some <==> raw != 0,
            raw == 0 ==> *final(ledger) == *old(ledger),
            raw != 0 ==> r->0.addr() == raw
                && final(ledger).refs() == old(ledger).refs() + 1
                && final(ledger).live() == old(ledger).live() + 1
                && final(ledger).unrefs() == old(ledger).unrefs(),
            old(ledger).balanced() ==> final(ledger).balanced(),
    {
        if raw == 0 {
            None
        } else {
            ledger.refs = ledger.refs + 1;
            ledger.live = ledger.live + 1;
            Some(SharedHandle { raw, tag: core::marker::PhantomData })
        }
    }

    /// Borrow the address for a native call that only inspects the object.
    pub fn as_raw(&self) -> (a: usize)
        ensures
            a == self.addr(),
    {
        self.raw
    }

    /// Clone the wrapper: one more native `ref` is recorded, and the caller
    /// must make the matching native `ref` call on the returned address.
    pub fn clone_ref(&self, ledger: &mut RefLedger) -> (h: SharedHandle<T>)
        requires
            old(ledger).refs() < u64::MAX,
            old(ledger).live() < u64::MAX,
        ensures
            h.addr() == self.addr(),
            final(ledger).refs() == old(ledger).refs() + 1,
            final(ledger).live() == old(ledger).live() + 1,
            final(ledger).unrefs() == old(ledger).unrefs(),
            old(ledger).balanced() ==> final(ledger).balanced(),
    {
        ledger.refs = ledger.refs + 1;
        ledger.live = ledger.live + 1;
        SharedHandle { raw: self.raw, tag: core::marker::PhantomData }
    }

    /// Drop the wrapper: one native `unref` is recorded, never a destroy,
    /// and the address is returned so the caller can make the matching
    /// native `unref` call.
    pub fn unref(self, ledger: &mut RefLedger) -> (a: usize)
        requires
            old(ledger).live() > 0,
            old(ledger).unrefs() < u64::MAX,
        ensures
            a == self.addr(),
            final(ledger).unrefs() == old(ledger).unrefs() + 1,
            final(ledger).live() == old(ledger).live() - 1,
            final(ledger).refs() == old(ledger).refs(),
            old(ledger).balanced() ==> final(ledger).balanced(),
    {
        ledger.unrefs = ledger.unrefs + 1;
        ledger.live = ledger.live - 1;
        self.raw
    }
}

/// Refcount balance: once every wrapper created against a ledger has been
/// dropped, the native `ref` calls it recorded equal the native `unref`
/// calls — the clone/drop traffic cancels out exactly.
pub proof fn lemma_refcount_balance(ledger: RefLedger)
    requires
        ledger.balanced(),
        ledger.live() == 0,
    ensures
        ledger.refs() == ledger.unrefs(),
{
}

} // verus!
