//! The lifetime discipline of a native callback registration.
//!
//! An observer moves its closure onto stable storage, hands the storage's
//! address to the native layer as an opaque context, and must keep that
//! storage alive for exactly as long as the native layer might still invoke
//! the callback.  The storage is reclaimed exactly once, on exactly one of
//! two paths: at once, when the registration attempt fails, or after the
//! registration has been revoked, during teardown.  This module records
//! that discipline as a trace of events and proves that both paths free
//! the storage exactly once and never while the native side holds it.

use vstd::prelude::*;

verus! {

/// One step of the interaction between an observer and the native layer.
#[derive(Clone, Copy, Debug, PartialEq, Eq, Structural)]
pub enum NativeEvent {
    /// The closure context was moved onto stable storage.
    Allocate,
    /// The native layer accepted the registration and from now on holds
    /// the context address.
    Grant,
    /// The native layer rejected the registration.
    Deny,
    /// The registration was revoked; the native layer makes no further
    /// invocation once this returns.
    Unregister,
    /// The context storage was reclaimed and freed.
    Reclaim,
}

/// How many times `event` occurs in `trace`.
pub open spec fn count_of(trace: Seq<NativeEvent>, event: NativeEvent) -> int
    decreases trace.len(),
{
    if trace.len() == 0 {
        0
    } else {
        count_of(trace.drop_last(), event) + (if trace.last() == event {
            1int
        } else {
            0int
        })
    }
}

/// After `trace`, the native layer may still invoke the callback: a
/// granted registration that was not yet revoked.
pub open spec fn native_holds(trace: Seq<NativeEvent>) -> bool {
    count_of(trace, NativeEvent::Grant) > count_of(trace, NativeEvent::Unregister)
}

/// After `trace`, the context storage is still live.
pub open spec fn context_live(trace: Seq<NativeEvent>) -> bool {
    count_of(trace, NativeEvent::Allocate) > count_of(trace, NativeEvent::Reclaim)
}

/// At step `i` of `trace` a reclaim is safe: the storage is still live
/// (no double free) and the native layer can no longer reach it (no use
/// after free).
pub open spec fn reclaim_ok_at(trace: Seq<NativeEvent>, i: int) -> bool {
    &&& context_live(trace.take(i))
    &&& !native_holds(trace.take(i))
}

/// A trace frees safely: every reclaim in it is safe where it stands.
pub open spec fn reclaim_safe(trace: Seq<NativeEvent>) -> bool {
    forall|i: int|
        0 <= i < trace.len() && #[trigger] trace[i] == NativeEvent::Reclaim ==> reclaim_ok_at(
            trace,
            i,
        )
}

/// What construction does: allocate, attempt the one registration, and on
/// denial roll the allocation back at once.
pub open spec fn construction_trace(granted: bool) -> Seq<NativeEvent> {
    if granted {
        seq![NativeEvent::Allocate, NativeEvent::Grant]
    } else {
        seq![NativeEvent::Allocate, NativeEvent::Deny, NativeEvent::Reclaim]
    }
}

/// What teardown does: revoke the registration and only then reclaim; an
/// observer whose registration never succeeded has nothing left to do.
pub open spec fn teardown_trace(registered: bool) -> Seq<NativeEvent> {
    if registered {
        seq![NativeEvent::Unregister, NativeEvent::Reclaim]
    } else {
        Seq::<NativeEvent>::empty()
    }
}

/// The whole life of one observer, from allocation to release.
pub open spec fn lifetime_trace(granted: bool) -> Seq<NativeEvent> {
    construction_trace(granted) + teardown_trace(granted)
}

/// The lifecycle record of one observer.  It is built once from the
/// registration outcome and consumed by `release`; there is no way to
/// tear an observer down twice.
pub struct ObserverCore {
    registered: bool,
    history: Ghost<Seq<NativeEvent>>,
}

impl ObserverCore {
    /// The events this observer has gone through.
    pub closed spec fn trace(self) -> Seq<NativeEvent> {
        self.history@
    }

    /// Whether the native layer currently holds the context address.
    pub closed spec fn registered_spec(self) -> bool {
        self.registered
    }

    /// A well-formed observer is exactly one construction outcome.
    pub closed spec fn wf(self) -> bool {
        self.history@ == construction_trace(self.registered)
    }

    /// Record the outcome of the one native registration attempt.  The
    /// second component tells the caller whether the context storage must
    /// be reclaimed right now: that is the rollback path, taken exactly
    /// when the attempt was denied, so a denied registration leaves an
    /// inert observer and no live storage behind.
    pub fn attach(granted: bool) -> (r: (ObserverCore, bool))
        ensures
            r.0.wf(),
            r.0.registered_spec() == granted,
            r.0.trace() == construction_trace(granted),
            r.1 == !granted,
    {
        let core = ObserverCore { registered: granted, history: Ghost(construction_trace(granted)) };
        (core, !granted)
    }

    /// Whether teardown still owes the native layer an unregistration.
    pub fn is_registered(&self) -> (r: bool)
        ensures
            r == self.registered_spec(),
    {
        self.registered
    }

    /// Tear the observer down.  The returned actions are what the caller
    /// must perform, in order: revoke the registration first, reclaim the
    /// context storage only after that returns.  `release` consumes the
    /// record, so a second teardown of the same observer cannot be
    /// written; an observer whose registration was denied yields no
    /// actions at all, since construction already reclaimed its storage.
    pub fn release(self) -> (actions: Vec<NativeEvent>)
        ensures
            actions@ == teardown_trace(self.registered_spec()),
            self.wf() ==> self.trace() + actions@ == lifetime_trace(self.registered_spec()),
    {
        let mut actions: Vec<NativeEvent> = Vec::new();
        if self.registered {
            actions.push(NativeEvent::Unregister);
            actions.push(NativeEvent::Reclaim);
        }
        proof {
            assert(actions@ =~= teardown_trace(self.registered));
        }
        actions
    }
}

/// `count_of` over a trace grown by one event.
proof fn lemma_count_push(trace: Seq<NativeEvent>, event: NativeEvent, last: NativeEvent)
    ensures
        count_of(trace.push(last), event) == count_of(trace, event) + (if last == event {
            1int
        } else {
            0int
        }),
{
    assert(trace.push(last).drop_last() =~= trace);
    assert(trace.push(last).last() == last);
}

/// The four-step life of a granted registration, written out.
proof fn lemma_granted_trace_shape()
    ensures
        lifetime_trace(true) =~= seq![
            NativeEvent::Allocate,
            NativeEvent::Grant,
            NativeEvent::Unregister,
            NativeEvent::Reclaim,
        ],
{
}

/// Helper: the counts over every prefix of the granted lifetime.
proof fn lemma_granted_counts(event: NativeEvent)
    ensures
        count_of(lifetime_trace(true), event) == (if event == NativeEvent::Deny {
            0int
        } else {
            1int
        }),
{
    let empty = Seq::<NativeEvent>::empty();
    let t1 = empty.push(NativeEvent::Allocate);
    let t2 = t1.push(NativeEvent::Grant);
    let t3 = t2.push(NativeEvent::Unregister);
    let t4 = t3.push(NativeEvent::Reclaim);
    assert(count_of(empty, event) == 0);
    lemma_count_push(empty, event, NativeEvent::Allocate);
    lemma_count_push(t1, event, NativeEvent::Grant);
    lemma_count_push(t2, event, NativeEvent::Unregister);
    lemma_count_push(t3, event, NativeEvent::Reclaim);
    lemma_granted_trace_shape();
    assert(lifetime_trace(true) =~= t4);
}

/// Helper: the counts over the denied lifetime.
proof fn lemma_denied_counts(event: NativeEvent)
    ensures
        count_of(lifetime_trace(false), event) == (if event == NativeEvent::Grant
            || event == NativeEvent::Unregister {
            0int
        } else {
            1int
        }),
{
    let empty = Seq::<NativeEvent>::empty();
    let t1 = empty.push(NativeEvent::Allocate);
    let t2 = t1.push(NativeEvent::Deny);
    let t3 = t2.push(NativeEvent::Reclaim);
    assert(count_of(empty, event) == 0);
    lemma_count_push(empty, event, NativeEvent::Allocate);
    lemma_count_push(t1, event, NativeEvent::Deny);
    lemma_count_push(t2, event, NativeEvent::Reclaim);
    assert(lifetime_trace(false) =~= t3);
}

/// Law: whatever the registration outcome, over the observer's whole
/// lifetime the context storage is freed exactly once, and every free
/// happens while the storage is live and after the native layer can no
/// longer reach it.
pub proof fn lemma_context_freed_exactly_once(granted: bool)
    ensures
        count_of(lifetime_trace(granted), NativeEvent::Reclaim) == 1,
        reclaim_safe(lifetime_trace(granted)),
{
    let trace = lifetime_trace(granted);
    if granted {
        lemma_granted_counts(NativeEvent::Reclaim);
        lemma_granted_trace_shape();
        assert forall|i: int|
            0 <= i < trace.len() && #[trigger] trace[i] == NativeEvent::Reclaim implies reclaim_ok_at(trace, i) by {
            assert(i == 3);
            let empty = Seq::<NativeEvent>::empty();
            let t1 = empty.push(NativeEvent::Allocate);
            let t2 = t1.push(NativeEvent::Grant);
            let t3 = t2.push(NativeEvent::Unregister);
            assert(trace.take(3) =~= t3);
            assert(count_of(empty, NativeEvent::Allocate) == 0);
            assert(count_of(empty, NativeEvent::Grant) == 0);
            assert(count_of(empty, NativeEvent::Unregister) == 0);
            assert(count_of(empty, NativeEvent::Reclaim) == 0);
            lemma_count_push(empty, NativeEvent::Allocate, NativeEvent::Allocate);
            lemma_count_push(empty, NativeEvent::Grant, NativeEvent::Allocate);
            lemma_count_push(empty, NativeEvent::Unregister, NativeEvent::Allocate);
            lemma_count_push(empty, NativeEvent::Reclaim, NativeEvent::Allocate);
            lemma_count_push(t1, NativeEvent::Allocate, NativeEvent::Grant);
            lemma_count_push(t1, NativeEvent::Grant, NativeEvent::Grant);
            lemma_count_push(t1, NativeEvent::Unregister, NativeEvent::Grant);
            lemma_count_push(t1, NativeEvent::Reclaim, NativeEvent::Grant);
            lemma_count_push(t2, NativeEvent::Allocate, NativeEvent::Unregister);
            lemma_count_push(t2, NativeEvent::Grant, NativeEvent::Unregister);
            lemma_count_push(t2, NativeEvent::Unregister, NativeEvent::Unregister);
            lemma_count_push(t2, NativeEvent::Reclaim, NativeEvent::Unregister);
            assert(trace.take(i) == trace.take(3));
        }
    } else {
        lemma_denied_counts(NativeEvent::Reclaim);
        assert forall|i: int|
            0 <= i < trace.len() && #[trigger] trace[i] == NativeEvent::Reclaim implies reclaim_ok_at(trace, i) by {
            assert(trace =~= seq![NativeEvent::Allocate, NativeEvent::Deny, NativeEvent::Reclaim]);
            assert(i == 2);
            let empty = Seq::<NativeEvent>::empty();
            let t1 = empty.push(NativeEvent::Allocate);
            let t2 = t1.push(NativeEvent::Deny);
            assert(trace.take(2) =~= t2);
            assert(count_of(empty, NativeEvent::Allocate) == 0);
            assert(count_of(empty, NativeEvent::Grant) == 0);
            assert(count_of(empty, NativeEvent::Unregister) == 0);
            assert(count_of(empty, NativeEvent::Reclaim) == 0);
            lemma_count_push(empty, NativeEvent::Allocate, NativeEvent::Allocate);
            lemma_count_push(empty, NativeEvent::Grant, NativeEvent::Allocate);
            lemma_count_push(empty, NativeEvent::Unregister, NativeEvent::Allocate);
            lemma_count_push(empty, NativeEvent::Reclaim, NativeEvent::Allocate);
            lemma_count_push(t1, NativeEvent::Allocate, NativeEvent::Deny);
            lemma_count_push(t1, NativeEvent::Grant, NativeEvent::Deny);
            lemma_count_push(t1, NativeEvent::Unregister, NativeEvent::Deny);
            lemma_count_push(t1, NativeEvent::Reclaim, NativeEvent::Deny);
            assert(trace.take(i) == trace.take(2));
        }
    }
}

/// Law: after a successful registration, exactly one unregistration
/// occurs over the lifetime, and it stands before the one reclaim.
pub proof fn lemma_unregister_precedes_reclaim()
    ensures
        count_of(lifetime_trace(true), NativeEvent::Unregister) == 1,
        count_of(lifetime_trace(true), NativeEvent::Reclaim) == 1,
        lifetime_trace(true)[2] == NativeEvent::Unregister,
        lifetime_trace(true)[3] == NativeEvent::Reclaim,
{
    lemma_granted_counts(NativeEvent::Unregister);
    lemma_granted_counts(NativeEvent::Reclaim);
    lemma_granted_trace_shape();
}

/// Law: when the registration attempt fails, construction itself ends by
/// reclaiming the storage, and the whole lifetime performs no
/// unregistration and exactly that one reclaim.
pub proof fn lemma_denied_registration_inert()
    ensures
        construction_trace(false).last() == NativeEvent::Reclaim,
        teardown_trace(false) == Seq::<NativeEvent>::empty(),
        count_of(lifetime_trace(false), NativeEvent::Unregister) == 0,
        count_of(lifetime_trace(false), NativeEvent::Reclaim) == 1,
{
    lemma_denied_counts(NativeEvent::Unregister);
    lemma_denied_counts(NativeEvent::Reclaim);
}

/// Law: teardown of an observer that is no longer registered performs no
/// native action at all, so even a conceptual second teardown — the first
/// one leaves nothing registered — could never unregister or free twice.
pub proof fn lemma_repeated_teardown_is_inert()
    ensures
        teardown_trace(false) == Seq::<NativeEvent>::empty(),
{
}

} // verus!
