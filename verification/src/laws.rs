//! The guarantees of the orchestration core, stated and proved over whole
//! event sequences.
//!
//! Each law here is a property of the actor's transition relation: what
//! stays true no matter which events arrive, in which order, and which
//! sends fail.  The handlers' own contracts tie the executable actor to
//! `spec_handle`; these lemmas speak about iterated applications of it.

use vstd::prelude::*;
use crate::messages::BackendMessageView;
use crate::server::{
    ActionView, ClientConnectionView, DisconnectReason, HostConnectionView, InternalMessageView,
    ServerView, lemma_lookup_none_iff_absent, lemma_remove_client_props, spec_client_close,
    spec_handle, spec_host_close, spec_host_update, spec_lookup_client, spec_remove_client,
};

verus! {

/// The state after the actor has consumed the given events in order.  Each
/// step carries its event and, for a `ClientConnected` event, whether the
/// state snapshot reached the new client.
pub open spec fn spec_run(s: ServerView, steps: Seq<(InternalMessageView, bool)>) -> ServerView
    decreases steps.len(),
{
    if steps.len() == 0 {
        s
    } else {
        spec_run(spec_handle(s, steps[0].0, steps[0].1).0, steps.drop_first())
    }
}

/// Whether applying this event to this state overwrites the retained
/// broadcast state: only a change-state event from the current host does.
pub open spec fn step_changes_state(s: ServerView, m: InternalMessageView) -> bool {
    &&& m is HostChangeState
    &&& s.host == Some(HostConnectionView { address: m->HostChangeState_address })
}

/// One actor step keeps the registry free of duplicate addresses.
pub proof fn lemma_handle_preserves_wf(s: ServerView, m: InternalMessageView, delivered: bool)
    requires
        s.wf(),
    ensures
        spec_handle(s, m, delivered).0.wf(),
{
    match m {
        InternalMessageView::ClientConnected { name, address } => {
            if delivered {
                lemma_remove_client_props(s.clients, address);
                let removed = spec_remove_client(s.clients, address);
                let entry = ClientConnectionView { name, address };
                assert forall|i: int, j: int|
                    0 <= i < j < removed.push(entry).len() implies removed.push(entry)[i].address
                    != removed.push(entry)[j].address by {
                    if j < removed.len() {
                        assert(removed.push(entry)[i] == removed[i]);
                        assert(removed.push(entry)[j] == removed[j]);
                    } else {
                        assert(removed.push(entry)[i] == removed[i]);
                        assert(removed.push(entry)[j] == entry);
                    }
                }
            }
        },
        InternalMessageView::ClientCloseConnection { address, reason } => {
            lemma_remove_client_props(s.clients, address);
        },
        _ => {},
    }
}

/// The registry invariant: starting from a duplicate-free registry, no
/// sequence of events ever registers two clients under one address.
pub proof fn lemma_run_preserves_wf(s: ServerView, steps: Seq<(InternalMessageView, bool)>)
    requires
        s.wf(),
    ensures
        spec_run(s, steps).wf(),
    decreases steps.len(),
{
    if steps.len() > 0 {
        lemma_handle_preserves_wf(s, steps[0].0, steps[0].1);
        lemma_run_preserves_wf(spec_handle(s, steps[0].0, steps[0].1).0, steps.drop_first());
    }
}

/// The single-host law: however many hosts connect, in whatever order, the
/// slot holds at most one host — it is an `Option` — and after any sequence
/// of `HostConnected` events it holds exactly the most recent one.
pub proof fn lemma_single_host(s: ServerView, steps: Seq<(InternalMessageView, bool)>)
    requires
        steps.len() > 0,
        forall|i: int| 0 <= i < steps.len() ==> steps[i].0 is HostConnected,
    ensures
        spec_run(s, steps).host == Some(
            HostConnectionView { address: steps.last().0->HostConnected_address },
        ),
    decreases steps.len(),
{
    let s1 = spec_handle(s, steps[0].0, steps[0].1).0;
    let rest = steps.drop_first();
    if steps.len() == 1 {
        assert(rest.len() == 0);
        assert(spec_run(s, steps) == s1);
    } else {
        assert(forall|i: int| 0 <= i < rest.len() ==> rest[i] == steps[i + 1]);
        lemma_single_host(s1, rest);
        assert(rest.last() == steps.last());
    }
}

/// No event that is not an accepted change-state touches the retained
/// broadcast state.
proof fn lemma_step_preserves_state(s: ServerView, m: InternalMessageView, delivered: bool)
    requires
        !step_changes_state(s, m),
    ensures
        spec_handle(s, m, delivered).0.state == s.state,
{
    match m {
        InternalMessageView::HostChangeState { address, content } => {
            match s.host {
                Some(h) => {
                    assert(h.address != address);
                },
                None => {},
            }
        },
        _ => {},
    }
}

/// The retained broadcast state survives any events that do not change it.
pub proof fn lemma_state_stable(s: ServerView, steps: Seq<(InternalMessageView, bool)>)
    requires
        forall|i: int|
            0 <= i < steps.len() ==> !step_changes_state(spec_run(s, steps.take(i)), steps[i].0),
    ensures
        spec_run(s, steps).state == s.state,
    decreases steps.len(),
{
    if steps.len() > 0 {
        assert(steps.take(0) =~= Seq::<(InternalMessageView, bool)>::empty());
        assert(spec_run(s, steps.take(0)) == s);
        assert(!step_changes_state(s, steps[0].0));
        lemma_step_preserves_state(s, steps[0].0, steps[0].1);
        let s1 = spec_handle(s, steps[0].0, steps[0].1).0;
        let rest = steps.drop_first();
        assert forall|i: int| 0 <= i < rest.len() implies !step_changes_state(
            spec_run(s1, rest.take(i)),
            rest[i].0,
        ) by {
            assert(rest[i] == steps[i + 1]);
            assert(steps.take(i + 1).drop_first() =~= rest.take(i));
            assert(steps.take(i + 1)[0] == steps[0]);
            assert(spec_run(s, steps.take(i + 1)) == spec_run(s1, rest.take(i)));
        }
        lemma_state_stable(s1, rest);
    }
}

/// The late-join law: once the current host's change-state with content `x`
/// is applied, the retained state is exactly that message, and it stays so
/// through any further events that do not change state again.  Registration
/// hands precisely this message to a new client as its first send — see
/// [`crate::server::Server::last_state_message`].
pub proof fn lemma_late_join_snapshot(
    s: ServerView,
    host_address: Seq<char>,
    content: Seq<char>,
    delivered: bool,
    steps: Seq<(InternalMessageView, bool)>,
)
    requires
        s.host == Some(HostConnectionView { address: host_address }),
        ({
            let s1 = spec_handle(
                s,
                InternalMessageView::HostChangeState { address: host_address, content },
                delivered,
            ).0;
            forall|i: int|
                0 <= i < steps.len() ==> !step_changes_state(spec_run(s1, steps.take(i)), steps[i].0)
        }),
    ensures
        spec_run(
            spec_handle(
                s,
                InternalMessageView::HostChangeState { address: host_address, content },
                delivered,
            ).0,
            steps,
        ).state == Some(BackendMessageView::ChangeState { content }),
{
    let s1 = spec_handle(
        s,
        InternalMessageView::HostChangeState { address: host_address, content },
        delivered,
    ).0;
    assert(s1.state == Some(BackendMessageView::ChangeState { content }));
    lemma_state_stable(s1, steps);
}

/// The stale-close law: a host close event whose address is not the current
/// host's mutates nothing and performs nothing.
pub proof fn lemma_stale_host_close_noop(
    s: ServerView,
    address: Seq<char>,
    reason: DisconnectReason,
)
    requires
        s.host matches Some(h) && h.address != address,
    ensures
        spec_host_close(s, address, reason).0 == s,
        spec_host_close(s, address, reason).1 == Seq::<ActionView>::empty(),
{
}

/// The broadcast-isolation law: an accepted update is sent to every
/// registered client, each send addressed from the registry alone.  One
/// client's failure surfaces later as its own close event; it cannot strike
/// any other client from this list.
pub proof fn lemma_broadcast_isolation(s: ServerView, address: Seq<char>, content: Seq<char>)
    requires
        s.host == Some(HostConnectionView { address }),
        s.clients.len() > 0,
    ensures
        spec_host_update(s, address, content).1.len() == s.clients.len(),
        forall|k: int|
            0 <= k < s.clients.len() ==> spec_host_update(s, address, content).1[k]
                == (ActionView::SendToClient {
                address: s.clients[k].address,
                message: BackendMessageView::Update { content },
            }),
{
}

/// The idempotent-removal law: closing a client address a second time finds
/// nothing to remove, mutates nothing, and performs nothing.
pub proof fn lemma_idempotent_removal(
    s: ServerView,
    address: Seq<char>,
    first_reason: DisconnectReason,
    second_reason: DisconnectReason,
)
    requires
        s.wf(),
    ensures
        ({
            let s1 = spec_client_close(s, address, first_reason).0;
            &&& spec_client_close(s1, address, second_reason).0 == s1
            &&& spec_client_close(s1, address, second_reason).1 == Seq::<ActionView>::empty()
        }),
{
    let s1 = spec_client_close(s, address, first_reason).0;
    match spec_lookup_client(s.clients, address) {
        None => {
            assert(s1 == s);
        },
        Some(c) => {
            assert(s1.clients == spec_remove_client(s.clients, address));
            lemma_remove_client_props(s.clients, address);
            lemma_lookup_none_iff_absent(s1.clients, address);
            assert(spec_lookup_client(s1.clients, address) is None);
        },
    }
}

} // verus!
