//! The registry of function intercepts: which callback observes which
//! session event, and in what order callback and original body run when
//! the host reaches an intercepted address.
//!
//! The interception primitive itself (patching the host's code) lives
//! outside this crate. The registry computes target addresses, records the
//! outcome the primitive reported, and, when the host reaches an
//! intercepted address, decides the dispatch plan: the exact sequence of
//! callback and original-body invocations the embedder must perform.

use vstd::prelude::*;
use crate::layout::{spec_table, Layout};

verus! {

/// The session lifecycle events whose entry points can be intercepted.
#[derive(Clone, Copy, Debug, PartialEq, Eq, Structural)]
pub enum EventKind {
    NetSessionDestroyed,
    NetSessionReconnecting,
    NetSessionConnected,
    NetSessionClosed,
    ServerFull,
    WrongPassword,
    Banned,
    ConnectionRejected,
}

/// Number of event kinds.
pub const EVENT_KINDS: usize = 8;

/// The registry's slot index of an event kind.
pub open spec fn kind_index(k: EventKind) -> int {
    match k {
        EventKind::NetSessionDestroyed => 0,
        EventKind::NetSessionReconnecting => 1,
        EventKind::NetSessionConnected => 2,
        EventKind::NetSessionClosed => 3,
        EventKind::ServerFull => 4,
        EventKind::WrongPassword => 5,
        EventKind::Banned => 6,
        EventKind::ConnectionRejected => 7,
    }
}

/// The registry's slot index of an event kind.
pub fn kind_slot(k: EventKind) -> (i: usize)
    ensures
        i == kind_index(k),
        i < EVENT_KINDS,
{
    match k {
        EventKind::NetSessionDestroyed => 0,
        EventKind::NetSessionReconnecting => 1,
        EventKind::NetSessionConnected => 2,
        EventKind::NetSessionClosed => 3,
        EventKind::ServerFull => 4,
        EventKind::WrongPassword => 5,
        EventKind::Banned => 6,
        EventKind::ConnectionRejected => 7,
    }
}

/// Every event kind, in slot order.
pub fn all_kinds() -> (r: Vec<EventKind>)
    ensures
        r@.len() == EVENT_KINDS,
        forall|k: EventKind| r@[kind_index(k)] == k,
        forall|t: int| 0 <= t < EVENT_KINDS ==> kind_index(#[trigger] r@[t]) == t,
{
    let r: Vec<EventKind> = vec![
        EventKind::NetSessionDestroyed,
        EventKind::NetSessionReconnecting,
        EventKind::NetSessionConnected,
        EventKind::NetSessionClosed,
        EventKind::ServerFull,
        EventKind::WrongPassword,
        EventKind::Banned,
        EventKind::ConnectionRejected,
    ];
    r
}

/// Offset, from the module base, of the function whose entry observes the
/// event, for the given layout.
pub open spec fn spec_hook_off(l: Layout, k: EventKind) -> usize {
    match l {
        Layout::V037 => match k {
            EventKind::NetSessionDestroyed => 0x9380,
            EventKind::NetSessionReconnecting => 0xA060,
            EventKind::NetSessionConnected => 0xA890,
            EventKind::NetSessionClosed => 0xA500,
            EventKind::ServerFull => 0xA500,
            EventKind::WrongPassword => 0xA500,
            EventKind::Banned => 0xA500,
            EventKind::ConnectionRejected => 0xA500,
        },
        Layout::V037R3 => match k {
            EventKind::NetSessionDestroyed => 0x9510,
            EventKind::NetSessionReconnecting => 0xA1E0,
            EventKind::NetSessionConnected => 0xAA20,
            EventKind::NetSessionClosed => 0x8A70,
            EventKind::ServerFull => 0x8A40,
            EventKind::WrongPassword => 0x8AB0,
            EventKind::Banned => 0x8A00,
            EventKind::ConnectionRejected => 0x10200,
        },
        Layout::V03Dl => match k {
            EventKind::NetSessionDestroyed => 0x9570,
            EventKind::NetSessionReconnecting => 0xA230,
            EventKind::NetSessionConnected => 0xAA60,
            EventKind::NetSessionClosed => 0xA600,
            EventKind::ServerFull => 0xA600,
            EventKind::WrongPassword => 0xA600,
            EventKind::Banned => 0xA600,
            EventKind::ConnectionRejected => 0xA600,
        },
    }
}

/// Offset, from the module base, of the function whose entry observes the
/// event, for the given layout.
pub fn hook_offset(l: Layout, k: EventKind) -> (r: usize)
    ensures
        r == spec_hook_off(l, k),
{
    match l {
        Layout::V037 => match k {
            EventKind::NetSessionDestroyed => 0x9380,
            EventKind::NetSessionReconnecting => 0xA060,
            EventKind::NetSessionConnected => 0xA890,
            EventKind::NetSessionClosed => 0xA500,
            EventKind::ServerFull => 0xA500,
            EventKind::WrongPassword => 0xA500,
            EventKind::Banned => 0xA500,
            EventKind::ConnectionRejected => 0xA500,
        },
        Layout::V037R3 => match k {
            EventKind::NetSessionDestroyed => 0x9510,
            EventKind::NetSessionReconnecting => 0xA1E0,
            EventKind::NetSessionConnected => 0xAA20,
            EventKind::NetSessionClosed => 0x8A70,
            EventKind::ServerFull => 0x8A40,
            EventKind::WrongPassword => 0x8AB0,
            EventKind::Banned => 0x8A00,
            EventKind::ConnectionRejected => 0x10200,
        },
        Layout::V03Dl => match k {
            EventKind::NetSessionDestroyed => 0x9570,
            EventKind::NetSessionReconnecting => 0xA230,
            EventKind::NetSessionConnected => 0xAA60,
            EventKind::NetSessionClosed => 0xA600,
            EventKind::ServerFull => 0xA600,
            EventKind::WrongPassword => 0xA600,
            EventKind::Banned => 0xA600,
            EventKind::ConnectionRejected => 0xA600,
        },
    }
}

/// Why an intercept could not be installed.
#[derive(Clone, Copy, Debug, PartialEq, Eq, Structural)]
pub enum HookError {
    /// No target address can be formed for this event under the active
    /// layout.
    AddressUnavailable,
    /// The target page could not be made writable.
    PageProtection,
    /// The interception primitive rejected the target function.
    SignatureRejected,
}

/// What the external interception primitive reported back for one attempt.
#[derive(Clone, Copy, Debug, PartialEq, Eq, Structural)]
pub enum InterceptFault {
    PageProtection,
    SignatureRejected,
}

/// The registry error a primitive fault surfaces as.
pub open spec fn fault_error(f: InterceptFault) -> HookError {
    match f {
        InterceptFault::PageProtection => HookError::PageProtection,
        InterceptFault::SignatureRejected => HookError::SignatureRejected,
    }
}

/// The address the event's intercept must be installed at: the module base
/// plus the layout's offset for that event.
pub fn plan_install(base: usize, l: Layout, k: EventKind) -> (r: Result<usize, HookError>)
    ensures
        r is Ok <==> base + spec_hook_off(l, k) <= usize::MAX,
        r is Ok ==> r->Ok_0 == base + spec_hook_off(l, k),
        r is Err ==> r->Err_0 == HookError::AddressUnavailable,
{
    match base.checked_add(hook_offset(l, k)) {
        Some(a) => Ok(a),
        None => Err(HookError::AddressUnavailable),
    }
}

/// The other event kinds whose intercept target under layout `l` is the
/// same address as `k`'s. The layout tables carry a few provisional,
/// shared entries; when such a pair is live, one intercepted address fires
/// two logically distinct events, and the embedder should surface that
/// once rather than trust both triggers.
pub fn kinds_sharing_address(l: Layout, k: EventKind) -> (r: Vec<EventKind>)
    ensures
        forall|k2: EventKind| #[trigger] r@.contains(k2) <==> k2 != k && spec_hook_off(l, k2)
            == spec_hook_off(l, k),
        forall|t1: int, t2: int| 0 <= t1 < t2 < r@.len() ==> r@[t1] != r@[t2],
{
    let kinds = all_kinds();
    let target = hook_offset(l, k);
    let mut r: Vec<EventKind> = Vec::new();
    let mut i: usize = 0;
    while i < kinds.len()
        invariant
            kinds@.len() == EVENT_KINDS,
            forall|k2: EventKind| kinds@[kind_index(k2)] == k2,
            forall|t: int| 0 <= t < EVENT_KINDS ==> kind_index(#[trigger] kinds@[t]) == t,
            i <= EVENT_KINDS,
            target == spec_hook_off(l, k),
            forall|k2: EventKind| #[trigger] r@.contains(k2) ==> k2 != k && spec_hook_off(l, k2)
                == spec_hook_off(l, k) && kind_index(k2) < i,
            forall|k2: EventKind| kind_index(k2) < i && k2 != k && spec_hook_off(l, k2)
                == spec_hook_off(l, k) ==> r@.contains(k2),
            forall|t: int| 0 <= t < r@.len() ==> kind_index(#[trigger] r@[t]) < i,
            forall|t1: int, t2: int| 0 <= t1 < t2 < r@.len() ==> r@[t1] != r@[t2],
        decreases EVENT_KINDS - i,
    {
        let k2 = kinds[i];
        proof {
            assert(kind_index(kinds@[i as int]) == i);
        }
        let off = hook_offset(l, k2);
        let is_match = off == target && kind_slot(k2) != kind_slot(k);
        let ghost r_old = r@;
        if is_match {
            r.push(k2);
        }
        proof {
            if is_match {
                assert forall|k3: EventKind| #[trigger] r@.contains(k3) implies k3 != k
                    && spec_hook_off(l, k3) == spec_hook_off(l, k) && kind_index(k3) < i + 1 by {
                    let t = choose|t: int| 0 <= t < r@.len() && r@[t] == k3;
                    if t < r_old.len() {
                        assert(r_old.contains(k3));
                    } else {
                        assert(k3 == k2);
                    }
                }
                assert forall|k3: EventKind|
                    kind_index(k3) < i + 1 && k3 != k && spec_hook_off(l, k3) == spec_hook_off(
                    l,
                    k,
                ) implies r@.contains(k3) by {
                    if kind_index(k3) < i {
                        let t = choose|t: int| 0 <= t < r_old.len() && r_old[t] == k3;
                        assert(r@[t] == k3);
                    } else {
                        assert(kinds@[kind_index(k3)] == k3);
                        assert(k3 == k2);
                        assert(r@[r@.len() - 1] == k3);
                    }
                }
            } else {
                assert forall|k3: EventKind|
                    kind_index(k3) < i + 1 && k3 != k && spec_hook_off(l, k3) == spec_hook_off(
                    l,
                    k,
                ) implies r@.contains(k3) by {
                    if kind_index(k3) == i {
                        assert(kinds@[kind_index(k3)] == k3);
                        assert(k3 == k2);
                        assert(false);
                    }
                }
            }
        }
        i += 1;
    }
    proof {
        assert forall|k2: EventKind| #[trigger] r@.contains(k2) <==> k2 != k && spec_hook_off(
            l,
            k2,
        ) == spec_hook_off(l, k) by {
            assert(kind_index(k2) < EVENT_KINDS);
        }
    }
    r
}

/// One live intercept: the address it was installed at and the callback
/// that observes the event. The preserved original body is reachable
/// through the intercept at `target`; the registry only decides when it
/// runs.
#[derive(Clone, Copy, Debug, PartialEq, Eq, Structural)]
pub struct HookSlot {
    pub target: usize,
    pub callback: u64,
}

/// One step of a dispatch plan: run the registered callback (named by its
/// token) or run the preserved original body.
#[derive(Clone, Copy, Debug, PartialEq, Eq, Structural)]
pub enum DispatchStep {
    RunCallback(u64),
    RunOriginal,
}

/// Whether the original body runs before the callback for this event
/// kind. Connection rejection is the one inverted kind; the inversion is
/// deliberate observed behavior, kept rather than normalized.
pub open spec fn original_first(k: EventKind) -> bool {
    k is ConnectionRejected
}

/// The dispatch plan of one trigger of `k` against slot state `slot`:
/// with a live slot, callback and original body exactly once each, in the
/// kind's order; with no live slot, nothing (an uninstalled event is never
/// dispatched).
pub open spec fn dispatch_plan(slot: Option<HookSlot>, k: EventKind) -> Seq<DispatchStep> {
    match slot {
        None => Seq::empty(),
        Some(s) => if original_first(k) {
            seq![DispatchStep::RunOriginal, DispatchStep::RunCallback(s.callback)]
        } else {
            seq![DispatchStep::RunCallback(s.callback), DispatchStep::RunOriginal]
        },
    }
}

/// The process-wide registry: at most one live intercept per event kind,
/// written only by `install`, read on every trigger.
pub struct HookRegistry {
    pub slots: Vec<Option<HookSlot>>,
}

impl HookRegistry {
    /// One slot per event kind.
    pub open spec fn wf(self) -> bool {
        self.slots@.len() == EVENT_KINDS
    }

    /// The live intercept for event kind `k`, if any.
    pub open spec fn slot_of(self, k: EventKind) -> Option<HookSlot> {
        self.slots@[kind_index(k)]
    }

    /// A registry with nothing installed.
    pub fn new() -> (r: HookRegistry)
        ensures
            r.wf(),
            forall|k: EventKind| r.slot_of(k) is None,
    {
        let slots: Vec<Option<HookSlot>> = vec![None, None, None, None, None, None, None, None];
        HookRegistry { slots }
    }

    /// Record the outcome of one intercept attempt at `target` for event
    /// kind `k`. On success the slot for `k` holds exactly the new
    /// callback — a previous one for the same kind is discarded — and no
    /// other kind's slot moves. On failure nothing moves and the fault is
    /// surfaced; the event stays unobserved, all other events unaffected.
    pub fn install(
        &mut self,
        k: EventKind,
        callback: u64,
        target: usize,
        outcome: Result<(), InterceptFault>,
    ) -> (r: Result<(), HookError>)
        requires
            old(self).wf(),
        ensures
            final(self).wf(),
            match r {
                Ok(()) => outcome is Ok && final(self).slot_of(k) == Some(
                    HookSlot { target, callback },
                ) && forall|k2: EventKind| k2 != k ==> final(self).slot_of(k2) == old(
                    self,
                ).slot_of(k2),
                Err(e) => outcome is Err && e == fault_error(outcome->Err_0) && *final(self)
                    == *old(self),
            },
    {
        match outcome {
            Ok(()) => {
                let i = kind_slot(k);
                self.slots.set(i, Some(HookSlot { target, callback }));
                proof {
                    assert forall|k2: EventKind| k2 != k implies self.slot_of(k2) == old(
                        self,
                    ).slot_of(k2) by {
                        if kind_index(k2) == kind_index(k) {
                            assert(false);
                        }
                    }
                }
                Ok(())
            },
            Err(InterceptFault::PageProtection) => Err(HookError::PageProtection),
            Err(InterceptFault::SignatureRejected) => Err(HookError::SignatureRejected),
        }
    }

    /// The dispatch plan for one trigger of event kind `k`: what the
    /// embedder must run, in order, when the host reaches the intercepted
    /// address.
    pub fn trigger(&self, k: EventKind) -> (r: Vec<DispatchStep>)
        requires
            self.wf(),
        ensures
            r@ == dispatch_plan(self.slot_of(k), k),
    {
        let i = kind_slot(k);
        match self.slots[i] {
            None => {
                let r: Vec<DispatchStep> = Vec::new();
                proof {
                    assert(r@ =~= dispatch_plan(self.slot_of(k), k));
                }
                r
            },
            Some(s) => {
                let original_last = !matches!(k, EventKind::ConnectionRejected);
                let r: Vec<DispatchStep> = if original_last {
                    vec![DispatchStep::RunCallback(s.callback), DispatchStep::RunOriginal]
                } else {
                    vec![DispatchStep::RunOriginal, DispatchStep::RunCallback(s.callback)]
                };
                proof {
                    assert(r@ =~= dispatch_plan(self.slot_of(k), k));
                }
                r
            },
        }
    }
}

/// Law: a trigger of a hooked event runs the stored callback and the
/// original body exactly once each; the original body comes first exactly
/// for connection rejection, and the callback first for every other kind.
pub proof fn lemma_dispatch_once_each(s: HookSlot, k: EventKind)
    ensures
        dispatch_plan(Some(s), k).len() == 2,
        exists|t: int| 0 <= t < 2 && dispatch_plan(Some(s), k)[t] == DispatchStep::RunCallback(
            s.callback,
        ) && forall|t2: int| 0 <= t2 < 2 && t2 != t ==> dispatch_plan(Some(s), k)[t2]
            == DispatchStep::RunOriginal,
        k is ConnectionRejected ==> dispatch_plan(Some(s), k)[0] == DispatchStep::RunOriginal
            && dispatch_plan(Some(s), k)[1] == DispatchStep::RunCallback(s.callback),
        !(k is ConnectionRejected) ==> dispatch_plan(Some(s), k)[0] == DispatchStep::RunCallback(
            s.callback,
        ) && dispatch_plan(Some(s), k)[1] == DispatchStep::RunOriginal,
{
    if original_first(k) {
        assert(dispatch_plan(Some(s), k)[1] == DispatchStep::RunCallback(s.callback));
    } else {
        assert(dispatch_plan(Some(s), k)[0] == DispatchStep::RunCallback(s.callback));
    }
}

/// Law: after a second install for the same event kind, a trigger runs
/// only the later callback — exactly once — and never the earlier one.
pub proof fn lemma_reinstall_replaces(s2: HookSlot, cb1: u64, k: EventKind)
    requires
        s2.callback != cb1,
    ensures
        exists|t: int| 0 <= t < dispatch_plan(Some(s2), k).len() && dispatch_plan(Some(s2), k)[t]
            == DispatchStep::RunCallback(s2.callback),
        forall|t: int| 0 <= t < dispatch_plan(Some(s2), k).len() ==> dispatch_plan(Some(s2), k)[t]
            != DispatchStep::RunCallback(cb1),
{
    lemma_dispatch_once_each(s2, k);
}

} // verus!
