//! Model of descriptor ownership across the handoff channel. The engine
//! duplicates each accepted connection's descriptor into the channel and
//! relinquishes its reference at send time; the OS queues the messages and
//! delivers each transferred descriptor as a freshly allocated one in the
//! receiving process. Over that model the laws below state that accept never
//! hands out two live connections wrapping the same descriptor value, that
//! accepts drain the queue in arrival order, and that closing the listener
//! releases only its own descriptor and leaves every connection already
//! handed out untouched.

use vstd::prelude::*;

verus! {

/// One listener's handoff channel and everything it has handed out.
pub ghost struct HandoffState {
    /// Descriptors queued inside the channel, in engine-side arrival order.
    pub pending: Seq<int>,
    /// Descriptors of the connections handed out so far, in accept order.
    pub issued: Seq<int>,
    /// Whether the listener still owns its own descriptor.
    pub listener_open: bool,
    /// The listener's own descriptor.
    pub listener_fd: int,
}

/// The freshness the OS guarantees of transferred descriptors: each one is
/// newly allocated in the receiving process, so it differs from every other
/// queued descriptor, from every descriptor already handed out, and from the
/// listener's own.
pub open spec fn fresh_descriptors(s: HandoffState) -> bool {
    (forall|i: int, j: int|
        0 <= i < j < s.pending.len() ==> s.pending[i] != s.pending[j]) && (forall|i: int, j: int|
        0 <= i < s.pending.len() && 0 <= j < s.issued.len() ==> s.pending[i] != s.issued[j]) && (
    forall|i: int| 0 <= i < s.pending.len() ==> s.pending[i] != s.listener_fd)
}

/// Invariant of the handoff protocol: no two connections handed out wrap the
/// same descriptor value, and none wraps the listener's own descriptor.
pub open spec fn distinct_ownership(s: HandoffState) -> bool {
    (forall|i: int, j: int| 0 <= i < j < s.issued.len() ==> s.issued[i] != s.issued[j]) && (forall|
        i: int,
    | 0 <= i < s.issued.len() ==> s.issued[i] != s.listener_fd)
}

/// One successful accept: the oldest queued descriptor leaves the channel
/// and becomes the newest connection handed out.
pub open spec fn accept_step(s: HandoffState) -> HandoffState {
    HandoffState {
        pending: s.pending.drop_first(),
        issued: s.issued.push(s.pending[0]),
        ..s
    }
}

/// Closing the listener: only its own descriptor is released.
pub open spec fn close_listener_step(s: HandoffState) -> HandoffState {
    HandoffState { listener_open: false, ..s }
}

/// Law: accept never hands out two live connections wrapping the same
/// descriptor value, and it drains the channel in arrival order — each
/// accept takes exactly the oldest queued descriptor.
pub proof fn lemma_accept_keeps_ownership_distinct(s: HandoffState)
    requires
        distinct_ownership(s),
        fresh_descriptors(s),
        s.pending.len() > 0,
    ensures
        distinct_ownership(accept_step(s)),
        fresh_descriptors(accept_step(s)),
        accept_step(s).issued == s.issued.push(s.pending[0]),
        accept_step(s).pending == s.pending.drop_first(),
{
    let t = accept_step(s);
    assert forall|i: int, j: int| 0 <= i < j < t.issued.len() implies t.issued[i] != t.issued[j] by {
        if j < s.issued.len() {
        } else {
            assert(t.issued[j] == s.pending[0]);
        }
    }
    assert forall|i: int, j: int|
        0 <= i < t.pending.len() && 0 <= j < t.issued.len() implies t.pending[i] != t.issued[j] by {
        assert(t.pending[i] == s.pending[i + 1]);
        if j < s.issued.len() {
        } else {
            assert(t.issued[j] == s.pending[0]);
        }
    }
    assert forall|i: int| 0 <= i < t.pending.len() implies t.pending[i] != t.listener_fd by {
        assert(t.pending[i] == s.pending[i + 1]);
    }
}

/// Law: closing a listener does not invalidate connections already handed
/// out by earlier accepts — the issued descriptors are exactly the same
/// afterwards, in the same order, and remain pairwise distinct.
pub proof fn lemma_close_listener_preserves_connections(s: HandoffState)
    requires
        distinct_ownership(s),
    ensures
        close_listener_step(s).issued == s.issued,
        !close_listener_step(s).listener_open,
        distinct_ownership(close_listener_step(s)),
{
}

} // verus!
