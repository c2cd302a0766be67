//! The main-loop module: init/shutdown pairing, timer and event-handler
//! registrations, the callback trampolines, and the owning wrapper for the
//! native canvas-window handle.
//!
//! The native event loop drives everything single-threadedly: registrations
//! are made against it, and during `main_loop_begin` it calls each
//! registration's trampoline with the erased payload stored at registration
//! time.  The loop state here is the decision layer: it says which
//! registrations exist, which events may be registered at all, and what a
//! trampoline hands a typed callback and returns to the native caller.  The
//! blocking native loop itself, and the clock, stay outside the crate.

use crate::eina::{EinaBool, EINA_TRUE};
use crate::eo::{DestroyLog, OwnedHandle};
use crate::eseful::{
    from_bool_to_eina, from_eina_to_bool, recover, spec_bool_to_eina, spec_eina_to_bool,
    spec_to_native, to_native, InitCounter, MarshalError, NativeString, OpaqueHandle,
};
use vstd::prelude::*;

verus! {

/// Tag for the native canvas-window handle.
pub enum EcoreEvas {
    Opaque,
}

/// Tag for the native event-handler registration handle.
pub enum EcoreEventHandler {
    Opaque,
}

/// The event kinds a handler can be registered for; the first and last
/// entries are sentinels of the native enumeration, not registrable events.
#[derive(Clone, Copy, Debug, PartialEq, Eq, Structural)]
pub enum EcoreEvent {
    EcoreEventNone,
    EcoreEventSignalUser,
    EcoreEventSignalHup,
    EcoreEventSignalExit,
    EcoreEventSignalPower,
    EcoreEventSignalRealtime,
    EcoreEventMemoryState,
    EcoreEventPowerState,
    EcoreEventLocaleChanged,
    EcoreEventHostnameChanged,
    EcoreEventSystemTimedateChanged,
    EcoreEventCount,
}

/// The signal details the native side attaches to a signal event.
#[derive(Clone, Copy)]
pub struct SigInfo;

/// The raw event record behind an exit-signal event, as the native side
/// lays it out in plain values.
#[derive(Clone, Copy)]
pub struct EcoreEventSignalExit {
    pub interrupt: EinaBool,
    pub quit: EinaBool,
    pub terminate: EinaBool,
    pub data: SigInfo,
}

/// The return value a timer callback uses to keep its timer running.
pub const ECORE_CALLBACK_RENEW: EinaBool = EINA_TRUE;

/// The number the native enumeration assigns to each event kind.
pub open spec fn spec_event_raw(e: EcoreEvent) -> u32 {
    match e {
        EcoreEvent::EcoreEventNone => 0,
        EcoreEvent::EcoreEventSignalUser => 1,
        EcoreEvent::EcoreEventSignalHup => 2,
        EcoreEvent::EcoreEventSignalExit => 3,
        EcoreEvent::EcoreEventSignalPower => 4,
        EcoreEvent::EcoreEventSignalRealtime => 5,
        EcoreEvent::EcoreEventMemoryState => 6,
        EcoreEvent::EcoreEventPowerState => 7,
        EcoreEvent::EcoreEventLocaleChanged => 8,
        EcoreEvent::EcoreEventHostnameChanged => 9,
        EcoreEvent::EcoreEventSystemTimedateChanged => 10,
        EcoreEvent::EcoreEventCount => 11,
    }
}

impl EcoreEvent {
    /// The number handed to the native registration call for this kind.
    pub fn to_raw(&self) -> (r: u32)
        ensures
            r == spec_event_raw(*self),
    {
        match self {
            EcoreEvent::EcoreEventNone => 0,
            EcoreEvent::EcoreEventSignalUser => 1,
            EcoreEvent::EcoreEventSignalHup => 2,
            EcoreEvent::EcoreEventSignalExit => 3,
            EcoreEvent::EcoreEventSignalPower => 4,
            EcoreEvent::EcoreEventSignalRealtime => 5,
            EcoreEvent::EcoreEventSystemTimedateChanged => 10,
            EcoreEvent::EcoreEventMemoryState => 6,
            EcoreEvent::EcoreEventPowerState => 7,
            EcoreEvent::EcoreEventLocaleChanged => 8,
            EcoreEvent::EcoreEventHostnameChanged => 9,
            EcoreEvent::EcoreEventCount => 11,
        }
    }

    /// Whether a handler may be registered for this kind: the sentinels are
    /// a caller error, refused at registration rather than discovered at
    /// dispatch.
    pub open spec fn spec_registrable(self) -> bool {
        !(self is EcoreEventNone || self is EcoreEventCount)
    }
}

/// The typed event data a registered callback receives, decoded from the
/// raw record by the kind the registration named — the raw record itself
/// carries no reliable discriminant.
#[derive(Clone, Copy, Debug, PartialEq, Eq, Structural)]
pub enum EcoreEventInfo {
    /// An exit signal, with its three reasons unmarshalled.
    SignalExit { interrupt: bool, quit: bool, terminate: bool },
    /// An event whose details this layer passes through undecoded.
    Plain,
}

/// What the trampoline decodes for a given registered kind and raw record.
pub open spec fn spec_decode_event_info(
    htype: EcoreEvent,
    exit: Option<EcoreEventSignalExit>,
) -> EcoreEventInfo {
    match htype {
        EcoreEvent::EcoreEventSignalExit => match exit {
            Option::Some(e) => EcoreEventInfo::SignalExit {
                interrupt: spec_eina_to_bool(e.interrupt),
                quit: spec_eina_to_bool(e.quit),
                terminate: spec_eina_to_bool(e.terminate),
            },
            Option::None => EcoreEventInfo::Plain,
        },
        _ => EcoreEventInfo::Plain,
    }
}

/// Decode the raw event record by the registered kind: only a kind that
/// promises an exit-signal record is read as one.
pub fn decode_event_info(htype: &EcoreEvent, exit: Option<EcoreEventSignalExit>) -> (r:
    EcoreEventInfo)
    ensures
        r == spec_decode_event_info(*htype, exit),
{
    match htype {
        EcoreEvent::EcoreEventSignalExit => match exit {
            Some(e) => EcoreEventInfo::SignalExit {
                interrupt: from_eina_to_bool(e.interrupt),
                quit: from_eina_to_bool(e.quit),
                terminate: from_eina_to_bool(e.terminate),
            },
            None => EcoreEventInfo::Plain,
        },
        _ => EcoreEventInfo::Plain,
    }
}

/// One live timer registration: its token and the requested interval in
/// seconds, carried as the bit pattern of the native double.
#[derive(Clone, Copy, Debug, PartialEq, Eq, Structural)]
pub struct TimerEntry {
    pub id: u64,
    pub interval_bits: u64,
}

/// One live event-handler registration: its token and the kind it was
/// registered for.
#[derive(Clone, Copy, Debug, PartialEq, Eq, Structural)]
pub struct HandlerEntry {
    pub id: u64,
    pub event: EcoreEvent,
}

/// The state of the main-loop module: its init nesting, its live
/// registrations, and whether a quit has been requested.
///
/// A registration cannot observe the death of the native object it watches;
/// removing it before that object goes away stays the caller's duty, as the
/// native documentation has it.
pub struct MainLoop {
    init: InitCounter,
    timers: Vec<TimerEntry>,
    handlers: Vec<HandlerEntry>,
    next_id: u64,
    quit_requested: bool,
}

impl MainLoop {
    /// The live timer registrations, in registration order.
    pub closed spec fn spec_timers(self) -> Seq<TimerEntry> {
        self.timers@
    }

    /// The live event-handler registrations, in registration order.
    pub closed spec fn spec_handlers(self) -> Seq<HandlerEntry> {
        self.handlers@
    }

    /// The init nesting depth.
    pub closed spec fn depth(self) -> u64 {
        self.init.depth()
    }

    /// Whether the module is initialized.
    pub open spec fn is_initialized(self) -> bool {
        self.depth() > 0
    }

    /// Whether a quit of the running loop has been requested.
    pub closed spec fn spec_quit_requested(self) -> bool {
        self.quit_requested
    }

    /// The next registration token to be handed out.
    pub closed spec fn spec_next_id(self) -> u64 {
        self.next_id
    }

    /// Registration tokens are handed out in order and never reused.
    pub open spec fn wf(self) -> bool {
        &&& forall|i: int|
            0 <= i < self.spec_timers().len() ==> (#[trigger] self.spec_timers()[i]).id
                < self.spec_next_id()
        &&& forall|i: int|
            0 <= i < self.spec_handlers().len() ==> (#[trigger] self.spec_handlers()[i]).id
                < self.spec_next_id()
        &&& forall|i: int, j: int|
            0 <= i < j < self.spec_timers().len() ==> (#[trigger] self.spec_timers()[i]).id != (
            #[trigger] self.spec_timers()[j]).id
        &&& forall|i: int, j: int|
            0 <= i < j < self.spec_handlers().len() ==> (#[trigger] self.spec_handlers()[i]).id
                != (#[trigger] self.spec_handlers()[j]).id
    }

    /// Whether a timer with the given token is registered.
    pub open spec fn spec_has_timer(self, id: u64) -> bool {
        exists|i: int| 0 <= i < self.spec_timers().len() && (#[trigger] self.spec_timers()[i]).id == id
    }

    /// Well-formedness carries over to a state with the same registrations
    /// and token counter.
    proof fn lemma_wf_congruence(self, other: MainLoop)
        requires
            self.wf(),
            other.spec_timers() == self.spec_timers(),
            other.spec_handlers() == self.spec_handlers(),
            other.spec_next_id() == self.spec_next_id(),
        ensures
            other.wf(),
    {
        assert forall|i: int|
            0 <= i < other.spec_timers().len() implies (#[trigger] other.spec_timers()[i]).id
            < other.spec_next_id() by {
            assert(other.spec_timers()[i] == self.spec_timers()[i]);
        }
        assert forall|i: int|
            0 <= i < other.spec_handlers().len() implies (#[trigger] other.spec_handlers()[i]).id
            < other.spec_next_id() by {
            assert(other.spec_handlers()[i] == self.spec_handlers()[i]);
        }
        assert forall|i: int, j: int|
            0 <= i < j < other.spec_timers().len() implies (#[trigger] other.spec_timers()[i]).id
            != (#[trigger] other.spec_timers()[j]).id by {
            assert(other.spec_timers()[i] == self.spec_timers()[i]);
            assert(other.spec_timers()[j] == self.spec_timers()[j]);
        }
        assert forall|i: int, j: int|
            0 <= i < j < other.spec_handlers().len() implies (
        #[trigger] other.spec_handlers()[i]).id != (#[trigger] other.spec_handlers()[j]).id by {
            assert(other.spec_handlers()[i] == self.spec_handlers()[i]);
            assert(other.spec_handlers()[j] == self.spec_handlers()[j]);
        }
    }

    /// A fresh, uninitialized main-loop module.
    pub fn new() -> (m: MainLoop)
        ensures
            m.depth() == 0,
            m.spec_timers() == Seq::<TimerEntry>::empty(),
            m.spec_handlers() == Seq::<HandlerEntry>::empty(),
            !m.spec_quit_requested(),
            m.wf(),
    {
        MainLoop {
            init: InitCounter::new(),
            timers: Vec::new(),
            handlers: Vec::new(),
            next_id: 0,
            quit_requested: false,
        }
    }

    /// Record one `init` of the module; the result is the new nesting
    /// depth, as the native call reports it.
    pub fn init(&mut self) -> (d: u64)
        requires
            old(self).depth() < u64::MAX,
        ensures
            final(self).depth() == old(self).depth() + 1,
            d == final(self).depth(),
            final(self).spec_timers() == old(self).spec_timers(),
            final(self).spec_handlers() == old(self).spec_handlers(),
            final(self).spec_next_id() == old(self).spec_next_id(),
            final(self).spec_quit_requested() == old(self).spec_quit_requested(),
            old(self).wf() ==> final(self).wf(),
    {
        let d = self.init.init();
        proof {
            if old(self).wf() {
                old(self).lemma_wf_congruence(*self);
            }
        }
        d
    }

    /// Record one `shutdown` of the module: balanced calls count the
    /// nesting down, one too many is refused as an error.
    pub fn shutdown(&mut self) -> (r: Result<u64, MarshalError>)
        ensures
            old(self).depth() == 0 ==> r == Err::<u64, MarshalError>(MarshalError::NotInitialized)
                && final(self).depth() == 0,
            old(self).depth() > 0 ==> final(self).depth() == old(self).depth() - 1 && r == Ok::<
                u64,
                MarshalError,
            >(final(self).depth()),
            final(self).spec_timers() == old(self).spec_timers(),
            final(self).spec_handlers() == old(self).spec_handlers(),
            final(self).spec_next_id() == old(self).spec_next_id(),
            final(self).spec_quit_requested() == old(self).spec_quit_requested(),
            old(self).wf() ==> final(self).wf(),
    {
        let r = self.init.shutdown();
        proof {
            if old(self).wf() {
                old(self).lemma_wf_congruence(*self);
            }
        }
        r
    }

    /// Whether the module is initialized, for inspection.
    pub fn initialized(&self) -> (b: bool)
        ensures
            b == self.is_initialized(),
    {
        self.init.initialized()
    }

    /// Register a timer with the given interval (the bit pattern of the
    /// native double, in seconds).  The token handed back names the
    /// registration and no earlier one.
    pub fn timer_add(&mut self, interval_bits: u64) -> (id: u64)
        requires
            old(self).wf(),
            old(self).is_initialized(),
            old(self).spec_next_id() < u64::MAX,
        ensures
            final(self).wf(),
            id == old(self).spec_next_id(),
            final(self).spec_timers() == old(self).spec_timers().push(
                TimerEntry { id, interval_bits },
            ),
            forall|i: int|
                0 <= i < old(self).spec_timers().len() ==> (#[trigger] old(
                    self,
                ).spec_timers()[i]).id != id,
            final(self).spec_handlers() == old(self).spec_handlers(),
            final(self).depth() == old(self).depth(),
            final(self).spec_quit_requested() == old(self).spec_quit_requested(),
            final(self).spec_has_timer(id),
    {
        let id = self.next_id;
        self.next_id = self.next_id + 1;
        self.timers.push(TimerEntry { id, interval_bits });
        proof {
            assert(self.timers@[self.timers@.len() - 1].id == id);
        }
        id
    }

    /// Register an event handler for the given kind.  A sentinel kind is a
    /// caller error, reported here at registration; a real kind is recorded
    /// under a fresh token.
    pub fn event_handler_add(&mut self, htype: EcoreEvent) -> (r: Result<u64, MarshalError>)
        requires
            old(self).wf(),
            old(self).is_initialized(),
            old(self).spec_next_id() < u64::MAX,
        ensures
            final(self).wf(),
            r is Ok <==> htype.spec_registrable(),
            r is Err ==> r->Err_0 == MarshalError::UnknownEventKind && *final(self) == *old(self),
            r is Ok ==> r->Ok_0 == old(self).spec_next_id() && final(self).spec_handlers() == old(
                self,
            ).spec_handlers().push(HandlerEntry { id: r->Ok_0, event: htype })
                && final(self).spec_timers() == old(self).spec_timers() && final(self).depth()
                == old(self).depth() && final(self).spec_quit_requested() == old(
                self,
            ).spec_quit_requested(),
    {
        match htype {
            EcoreEvent::EcoreEventNone => {
                proof {
                    old(self).lemma_wf_congruence(*self);
                }
                Err(MarshalError::UnknownEventKind)
            },
            EcoreEvent::EcoreEventCount => {
                proof {
                    old(self).lemma_wf_congruence(*self);
                }
                Err(MarshalError::UnknownEventKind)
            },
            _ => {
                let id = self.next_id;
                self.next_id = self.next_id + 1;
                self.handlers.push(HandlerEntry { id, event: htype });
                proof {
                    assert(self.handlers@[self.handlers@.len() - 1].id == id);
                    assert forall|k: int|
                        0 <= k < self.timers@.len() implies (#[trigger] self.timers@[k]).id
                        < self.next_id by {
                        assert(self.timers@[k] == old(self).spec_timers()[k]);
                    }
                    assert forall|p: int, q: int|
                        0 <= p < q < self.timers@.len() implies (#[trigger] self.timers@[p]).id
                        != (#[trigger] self.timers@[q]).id by {
                        assert(self.timers@[p] == old(self).spec_timers()[p]);
                        assert(self.timers@[q] == old(self).spec_timers()[q]);
                    }
                }
                Ok(id)
            },
        }
    }

    /// Apply a timer callback's decision after its trampoline ran: the
    /// renew sentinel keeps the registration, so the native timer fires
    /// again; anything else removes it.
    pub fn timer_fire(&mut self, id: u64, result: EinaBool)
        requires
            old(self).wf(),
            old(self).spec_has_timer(id),
        ensures
            final(self).wf(),
            result == ECORE_CALLBACK_RENEW ==> final(self).spec_timers() == old(
                self,
            ).spec_timers() && final(self).spec_has_timer(id),
            result != ECORE_CALLBACK_RENEW ==> final(self).spec_timers() == old(
                self,
            ).spec_timers().remove(old(self).spec_timers().index_of(
                choose|e: TimerEntry|
                    old(self).spec_timers().contains(e) && e.id == id,
            )) && !final(self).spec_has_timer(id),
            result != ECORE_CALLBACK_RENEW ==> final(self).spec_timers().len() == old(
                self,
            ).spec_timers().len() - 1,
            final(self).spec_handlers() == old(self).spec_handlers(),
            final(self).depth() == old(self).depth(),
            final(self).spec_quit_requested() == old(self).spec_quit_requested(),
            final(self).spec_next_id() == old(self).spec_next_id(),
    {
        if result == ECORE_CALLBACK_RENEW {
            proof {
                old(self).lemma_wf_congruence(*self);
            }
            return ;
        }
        let mut i: usize = 0;
        let n = self.timers.len();
        while i < n
            invariant
                i <= n,
                n == self.timers@.len(),
                forall|j: int| 0 <= j < i ==> (#[trigger] self.timers@[j]).id != id,
            ensures
                i <= n,
                forall|j: int| 0 <= j < i ==> (#[trigger] self.timers@[j]).id != id,
                i == n || self.timers@[i as int].id == id,
            decreases n - i,
        {
            if self.timers[i].id == id {
                break;
            }
            i = i + 1;
        }
        proof {
            let olds = old(self).spec_timers();
            let w = choose|k: int| 0 <= k < olds.len() && (#[trigger] olds[k]).id == id;
            assert(i < n) by {
                if i == n {
                    assert(olds[w].id != id);
                }
            }
        }
        let ghost olds = old(self).spec_timers();
        let ghost iint = i as int;
        let removed = self.timers.remove(i);
        proof {
            let news = self.timers@;
            assert(olds[iint] == removed);
            assert(removed.id == id);
            assert(olds.contains(removed));
            // only one entry carries the token, so the chosen entry and the
            // chosen index are the ones the loop found
            let e = choose|e: TimerEntry| olds.contains(e) && e.id == id;
            assert(e == removed) by {
                let k = choose|k: int| 0 <= k < olds.len() && olds[k] == e;
                if k < iint {
                    assert(olds[k].id != olds[iint].id);
                } else if k > iint {
                    assert(olds[iint].id != olds[k].id);
                }
            }
            assert(olds.index_of(removed) == iint) by {
                assert(olds.contains(removed));
                let j = olds.index_of(removed);
                assert(0 <= j < olds.len() && olds[j] == removed);
                if j < iint {
                    assert(olds[j].id != olds[iint].id);
                } else if j > iint {
                    assert(olds[iint].id != olds[j].id);
                }
            }
            // no entry with the token is left
            assert forall|k: int| 0 <= k < news.len() implies (#[trigger] news[k]).id != id by {
                if k < iint {
                    assert(news[k] == olds[k]);
                } else {
                    assert(news[k] == olds[k + 1]);
                    assert(olds[iint].id != olds[k + 1].id);
                }
            }
            // the remaining tokens stay bounded and distinct
            assert forall|k: int| 0 <= k < news.len() implies (#[trigger] news[k]).id < self.spec_next_id() by {
                if k < iint {
                    assert(news[k] == olds[k]);
                } else {
                    assert(news[k] == olds[k + 1]);
                }
            }
            assert forall|p: int, q: int| 0 <= p < q < news.len() implies (#[trigger] news[p]).id
                != (#[trigger] news[q]).id by {
                let p0 = if p < iint {
                    p
                } else {
                    p + 1
                };
                let q0 = if q < iint {
                    q
                } else {
                    q + 1
                };
                assert(news[p] == olds[p0]);
                assert(news[q] == olds[q0]);
            }
        }
    }

    /// The next registration token to be handed out, for inspection.
    pub fn next_id(&self) -> (id: u64)
        ensures
            id == self.spec_next_id(),
    {
        self.next_id
    }

    /// How many timers are registered, for inspection.
    pub fn timer_count(&self) -> (n: usize)
        ensures
            n == self.spec_timers().len(),
    {
        self.timers.len()
    }

    /// How many event handlers are registered, for inspection.
    pub fn handler_count(&self) -> (n: usize)
        ensures
            n == self.spec_handlers().len(),
    {
        self.handlers.len()
    }

    /// Whether a timer with the given token is registered, for inspection.
    pub fn has_timer(&self, id: u64) -> (b: bool)
        ensures
            b == self.spec_has_timer(id),
    {
        let mut i: usize = 0;
        let n = self.timers.len();
        while i < n
            invariant
                i <= n,
                n == self.timers@.len(),
                forall|j: int| 0 <= j < i ==> (#[trigger] self.timers@[j]).id != id,
            decreases n - i,
        {
            if self.timers[i].id == id {
                proof {
                    assert(self.spec_timers()[i as int].id == id);
                }
                return true;
            }
            i = i + 1;
        }
        false
    }

    /// Whether a quit has been requested, for inspection.
    pub fn quit_requested(&self) -> (b: bool)
        ensures
            b == self.spec_quit_requested(),
    {
        self.quit_requested
    }

    /// Ask the running loop to return; the request is sticky until the
    /// loop honours it.
    pub fn main_loop_quit(&mut self)
        ensures
            final(self).spec_quit_requested(),
            final(self).spec_timers() == old(self).spec_timers(),
            final(self).spec_handlers() == old(self).spec_handlers(),
            final(self).depth() == old(self).depth(),
            final(self).spec_next_id() == old(self).spec_next_id(),
            old(self).wf() ==> final(self).wf(),
    {
        self.quit_requested = true;
    }
}

/// The timer trampoline: recover the typed payload from the erased token
/// the native side handed back, invoke the typed callback, and marshal its
/// decision into the native truth value — the renew sentinel if and only if
/// the callback asked to keep the timer.
pub fn timer_trampoline<T, F: Fn(&Option<T>) -> bool>(
    data: &OpaqueHandle<Option<T>>,
    func: &F,
) -> (r: EinaBool)
    requires
        call_requires(*func, (&data.value(),)),
    ensures
        exists|b: bool|
            #[trigger] call_ensures(*func, (&data.value(),), b) && r == spec_bool_to_eina(b),
{
    let payload = recover(data);
    let b = func(payload);
    from_bool_to_eina(b)
}

/// The event-handler trampoline: recover the typed payload, decode the raw
/// event record by the kind this registration was made for, invoke the
/// typed callback, and marshal its verdict back to the native truth value.
pub fn event_handler_trampoline<T, F: Fn(&Option<T>, EcoreEvent, &EcoreEventInfo) -> bool>(
    data: &OpaqueHandle<Option<T>>,
    htype: EcoreEvent,
    exit: Option<EcoreEventSignalExit>,
    func: &F,
) -> (r: EinaBool)
    requires
        call_requires(*func, (&data.value(), htype, &spec_decode_event_info(htype, exit))),
    ensures
        exists|b: bool|
            #[trigger] call_ensures(
                *func,
                (&data.value(), htype, &spec_decode_event_info(htype, exit)),
                b,
            ) && r == spec_bool_to_eina(b),
{
    let payload = recover(data);
    let info = decode_event_info(&htype, exit);
    let b = func(payload, htype, &info);
    from_bool_to_eina(b)
}

/// The resize trampoline: hand the typed callback the address of the canvas
/// window that was resized.
pub fn resize_trampoline<F: Fn(usize)>(ee: usize, func: &F)
    requires
        call_requires(*func, (ee,)),
    ensures
        call_ensures(*func, (ee,), ()),
{
    func(ee);
}

/// Marshal the arguments of a native canvas-window creation call: the
/// engine name, absent to let the native side pick one, and the extra
/// options.  The geometry passes through unmarshalled.  The native call's
/// result goes through [`evas_wrap`].
pub fn evas_new(engine_name: Option<&str>, extra_options: &str) -> (r: Result<
    (Option<NativeString>, NativeString),
    MarshalError,
>)
    ensures
        r is Ok <==> (match engine_name {
            Option::Some(e) => !e@.contains('\0'),
            Option::None => true,
        } && !extra_options@.contains('\0')),
        r is Ok ==> (match engine_name {
            Option::Some(e) => r->Ok_0.0 is Some && r->Ok_0.0->0@ == spec_to_native(e@),
            Option::None => r->Ok_0.0 is None,
        } && r->Ok_0.1@ == spec_to_native(extra_options@)),
        r is Err ==> r->Err_0 == MarshalError::InteriorNul,
{
    let opts = match to_native(extra_options) {
        Ok(o) => o,
        Err(e) => {
            return Err(e);
        },
    };
    match engine_name {
        None => Ok((None, opts)),
        Some(name) => match to_native(name) {
            Ok(n) => Ok((Some(n), opts)),
            Err(e) => Err(e),
        },
    }
}

/// Wrap the handle a native canvas-window creation call returned: a null
/// handle means the engine was not available, surfaced as an absent value.
pub fn evas_wrap(raw: usize) -> (r: Option<OwnedHandle<EcoreEvas>>)
    ensures
        r is Some <==> raw != 0,
        r is Some ==> r->0.addr() == raw,
{
    OwnedHandle::try_wrap(raw)
}

/// Release a canvas-window handle: exactly one native destroy of its
/// address is recorded, and the address is handed back for the native free
/// call.
pub fn evas_free(ee: OwnedHandle<EcoreEvas>, log: &mut DestroyLog) -> (a: usize)
    requires
        old(log)@.len() < usize::MAX,
    ensures
        a == ee.addr(),
        final(log)@ == old(log)@.push(a),
{
    ee.release(log)
}

} // verus!
