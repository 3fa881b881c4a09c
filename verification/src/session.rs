use vstd::prelude::*;

use crate::addr::{LinkRequest, SpecLinkRequest};
use crate::socks5::ReplyType;

verus! {

/// Where the routing of one incoming connection stands.
#[derive(Debug, Clone, Copy, PartialEq, Eq, Structural)]
pub enum SessionPhase {
    /// Nothing done yet.
    Start,
    /// The input chain is resolving the request.
    AwaitRequest,
    /// The output chain is opening a connection for the request.
    AwaitConnection,
    /// The reply is being sent; whether the connection was opened.
    Replying(bool),
    /// Data is being copied both ways.
    Relaying,
    /// The routing is over.
    Closed,
}

/// What happened since the last step of a session.
#[derive(Debug, Clone, PartialEq, Eq)]
pub enum SessionEvent {
    /// A connection was accepted.
    Begin,
    /// The input chain resolved the request, or failed to (`None`).
    RequestResolved(Option<LinkRequest>),
    /// The output chain opened the connection, or failed to.
    Connected(bool),
    /// The reply was sent (or sending it failed; either way it is done).
    ReplySent,
    /// Copying ended.
    RelayEnded,
}

/// What a session asks to be done next.
#[derive(Debug, Clone, PartialEq, Eq)]
pub enum SessionAction {
    /// Route the connection through the input chain.
    HandleConnection,
    /// Open a connection for this request through the output chain.
    Connect(LinkRequest),
    /// Send this reply through the input chain.
    SendReply(ReplyType),
    /// Copy data both ways between the two connections.
    Relay,
    /// Drop the connection.
    Close,
}

/// The mathematical value of a [`SessionEvent`].
pub enum SpecSessionEvent {
    Begin,
    RequestResolved(Option<SpecLinkRequest>),
    Connected(bool),
    ReplySent,
    RelayEnded,
}

/// The mathematical value of a [`SessionAction`].
pub enum SpecSessionAction {
    HandleConnection,
    Connect(SpecLinkRequest),
    SendReply(ReplyType),
    Relay,
    Close,
}

impl View for SessionEvent {
    type V = SpecSessionEvent;

    open spec fn view(&self) -> SpecSessionEvent {
        match self {
            SessionEvent::Begin => SpecSessionEvent::Begin,
            SessionEvent::RequestResolved(Some(r)) => SpecSessionEvent::RequestResolved(Some(r@)),
            SessionEvent::RequestResolved(None) => SpecSessionEvent::RequestResolved(None),
            SessionEvent::Connected(ok) => SpecSessionEvent::Connected(*ok),
            SessionEvent::ReplySent => SpecSessionEvent::ReplySent,
            SessionEvent::RelayEnded => SpecSessionEvent::RelayEnded,
        }
    }
}

impl View for SessionAction {
    type V = SpecSessionAction;

    open spec fn view(&self) -> SpecSessionAction {
        match self {
            SessionAction::HandleConnection => SpecSessionAction::HandleConnection,
            SessionAction::Connect(r) => SpecSessionAction::Connect(r@),
            SessionAction::SendReply(t) => SpecSessionAction::SendReply(*t),
            SessionAction::Relay => SpecSessionAction::Relay,
            SessionAction::Close => SpecSessionAction::Close,
        }
    }
}

/// One step of the routing of a connection.
///
/// An accepted connection goes through the input chain; a failure there
/// closes it, with no reply and no outgoing connection. A resolved request
/// is handed, as it is, to the output chain. The client is then told
/// whether the connection was opened; after a failure the connection is
/// closed, after a success data is copied both ways until copying ends.
/// An event that the phase does not wait for ends the session.
pub open spec fn spec_session_step(phase: SessionPhase, event: SpecSessionEvent) -> (
    SessionPhase,
    SpecSessionAction,
) {
    match (phase, event) {
        (SessionPhase::Start, SpecSessionEvent::Begin) => (
            SessionPhase::AwaitRequest,
            SpecSessionAction::HandleConnection,
        ),
        (SessionPhase::AwaitRequest, SpecSessionEvent::RequestResolved(Some(r))) => (
            SessionPhase::AwaitConnection,
            SpecSessionAction::Connect(r),
        ),
        (SessionPhase::AwaitConnection, SpecSessionEvent::Connected(ok)) => (
            SessionPhase::Replying(ok),
            SpecSessionAction::SendReply(
                if ok {
                    ReplyType::Succeeded
                } else {
                    ReplyType::GeneralFailure
                },
            ),
        ),
        (SessionPhase::Replying(true), SpecSessionEvent::ReplySent) => (
            SessionPhase::Relaying,
            SpecSessionAction::Relay,
        ),
        _ => (SessionPhase::Closed, SpecSessionAction::Close),
    }
}

/// Takes one step of the routing of a connection.
pub fn session_step(phase: &mut SessionPhase, event: SessionEvent) -> (action: SessionAction)
    ensures
        (*final(phase), action@) == spec_session_step(*old(phase), event@),
{
    match (*phase, event) {
        (SessionPhase::Start, SessionEvent::Begin) => {
            *phase = SessionPhase::AwaitRequest;
            SessionAction::HandleConnection
        },
        (SessionPhase::AwaitRequest, SessionEvent::RequestResolved(Some(r))) => {
            *phase = SessionPhase::AwaitConnection;
            SessionAction::Connect(r)
        },
        (SessionPhase::AwaitConnection, SessionEvent::Connected(ok)) => {
            *phase = SessionPhase::Replying(ok);
            SessionAction::SendReply(ReplyType::for_connection(ok))
        },
        (SessionPhase::Replying(true), SessionEvent::ReplySent) => {
            *phase = SessionPhase::Relaying;
            SessionAction::Relay
        },
        _ => {
            *phase = SessionPhase::Closed;
            SessionAction::Close
        },
    }
}

// ---------------------------------------------------------------------
// Runs
// ---------------------------------------------------------------------
/// The actions that a session takes, from a phase, for a series of events:
/// one action for each event, in order.
pub open spec fn session_actions(phase: SessionPhase, events: Seq<SpecSessionEvent>) -> Seq<
    SpecSessionAction,
>
    decreases events.len(),
{
    if events.len() == 0 {
        Seq::empty()
    } else {
        let (next, action) = spec_session_step(phase, events[0]);
        seq![action] + session_actions(next, events.drop_first())
    }
}

/// How far along a phase is; no step goes back.
spec fn rank(phase: SessionPhase) -> int {
    match phase {
        SessionPhase::Start => 0,
        SessionPhase::AwaitRequest => 1,
        SessionPhase::AwaitConnection => 2,
        SessionPhase::Replying(_) => 3,
        SessionPhase::Relaying => 4,
        SessionPhase::Closed => 5,
    }
}

/// What holds of every run of a session, from any phase.
proof fn lemma_run(phase: SessionPhase, events: Seq<SpecSessionEvent>)
    ensures
        session_actions(phase, events).len() == events.len(),
        forall|i: int|
            0 <= i < events.len() ==> (#[trigger] session_actions(phase, events)[i] matches SpecSessionAction::Connect(r)
                ==> events[i] == SpecSessionEvent::RequestResolved(Some(r))),
        rank(phase) >= 2 ==> forall|i: int|
            0 <= i < events.len() ==> !(#[trigger] session_actions(phase, events)[i] is Connect),
        forall|i: int, j: int|
            0 <= i < j < events.len() ==> !((#[trigger] session_actions(phase, events)[i] is Connect)
                && (#[trigger] session_actions(phase, events)[j] is Connect)),
        forall|j: int|
            0 <= j < events.len() && (#[trigger] session_actions(phase, events)[j] is Relay) ==> (j == 0
                && phase == SessionPhase::Replying(true)) || (j > 0 && session_actions(phase, events)[j
                - 1] == SpecSessionAction::SendReply(ReplyType::Succeeded)),
        phase == SessionPhase::Closed ==> forall|i: int|
            0 <= i < events.len() ==> #[trigger] session_actions(phase, events)[i]
                == SpecSessionAction::Close,
        phase == SessionPhase::Replying(false) ==> forall|i: int|
            0 <= i < events.len() ==> #[trigger] session_actions(phase, events)[i]
                == SpecSessionAction::Close,
        forall|i: int, k: int|
            0 <= i < k < events.len() && #[trigger] session_actions(phase, events)[i]
                == SpecSessionAction::Close ==> #[trigger] session_actions(phase, events)[k]
                == SpecSessionAction::Close,
        forall|i: int, k: int|
            0 <= i < k < events.len() && #[trigger] session_actions(phase, events)[i]
                == SpecSessionAction::SendReply(ReplyType::GeneralFailure) ==> #[trigger] session_actions(
                phase,
                events,
            )[k] == SpecSessionAction::Close,
    decreases events.len(),
{
    if events.len() > 0 {
        let (next, action) = spec_session_step(phase, events[0]);
        let rest = events.drop_first();
        let acts = session_actions(phase, events);
        let tail = session_actions(next, rest);
        lemma_run(next, rest);
        assert(acts =~= seq![action] + tail);
        assert(rank(next) >= rank(phase));
        assert forall|i: int| 0 < i < events.len() implies #[trigger] acts[i] == tail[i - 1]
            && events[i] == rest[i - 1] by {}
        assert(acts[0] == action);
    }
}

/// Over any run of a session, the output chain is asked for a connection
/// at most once, and only for the request that the input chain resolved.
pub proof fn lemma_session_connects_once(events: Seq<SpecSessionEvent>)
    ensures
        forall|i: int, j: int|
            0 <= i < j < events.len() ==> !((#[trigger] session_actions(
                SessionPhase::Start,
                events,
            )[i] is Connect) && (#[trigger] session_actions(SessionPhase::Start, events)[j] is Connect)),
        forall|i: int|
            0 <= i < events.len() ==> (#[trigger] session_actions(SessionPhase::Start, events)[i] matches SpecSessionAction::Connect(
                r,
            ) ==> events[i] == SpecSessionEvent::RequestResolved(Some(r))),
{
    lemma_run(SessionPhase::Start, events);
}

/// Over any run of a session, data is copied only right after the client
/// was told that the connection succeeded.
pub proof fn lemma_session_replies_before_relaying(events: Seq<SpecSessionEvent>)
    ensures
        forall|j: int|
            0 <= j < events.len() && (#[trigger] session_actions(SessionPhase::Start, events)[j] is Relay)
                ==> j > 0 && session_actions(SessionPhase::Start, events)[j - 1]
                == SpecSessionAction::SendReply(ReplyType::Succeeded),
{
    lemma_run(SessionPhase::Start, events);
}

/// When the input chain fails to resolve the request, the session ends:
/// no reply is sent and no connection is opened, whatever happens next.
pub proof fn lemma_session_input_error_closes(events: Seq<SpecSessionEvent>)
    requires
        events.len() >= 2,
        events[0] == SpecSessionEvent::Begin,
        events[1] == SpecSessionEvent::RequestResolved(None),
    ensures
        session_actions(SessionPhase::Start, events)[0] == SpecSessionAction::HandleConnection,
        forall|k: int|
            1 <= k < events.len() ==> #[trigger] session_actions(SessionPhase::Start, events)[k]
                == SpecSessionAction::Close,
{
    lemma_run(SessionPhase::Start, events);
    let rest = events.drop_first();
    lemma_run(SessionPhase::AwaitRequest, rest);
    assert(session_actions(SessionPhase::Start, events) =~= seq![
        SpecSessionAction::HandleConnection,
    ] + session_actions(SessionPhase::AwaitRequest, rest));
    assert(rest[0] == SpecSessionEvent::RequestResolved(None));
    assert(session_actions(SessionPhase::AwaitRequest, rest)[0] == SpecSessionAction::Close);
}

/// When the output chain fails to open the connection, the client is told
/// of a general failure, and then the session ends.
pub proof fn lemma_session_connect_failure_closes(events: Seq<SpecSessionEvent>)
    ensures
        forall|i: int, k: int|
            0 <= i < k < events.len() && #[trigger] session_actions(SessionPhase::Start, events)[i]
                == SpecSessionAction::SendReply(ReplyType::GeneralFailure) ==> #[trigger] session_actions(
                SessionPhase::Start,
                events,
            )[k] == SpecSessionAction::Close,
{
    lemma_run(SessionPhase::Start, events);
}

/// Every resolved request is handed, as it is, to the output chain; the
/// client is told of success or general failure as the output chain
/// succeeded or failed; data is copied only after a success.
pub proof fn lemma_session_routes(req: SpecLinkRequest, connected: bool)
    ensures
        spec_session_step(SessionPhase::Start, SpecSessionEvent::Begin) == (
            SessionPhase::AwaitRequest,
            SpecSessionAction::HandleConnection,
        ),
        spec_session_step(SessionPhase::AwaitRequest, SpecSessionEvent::RequestResolved(Some(req)))
            == (SessionPhase::AwaitConnection, SpecSessionAction::Connect(req)),
        spec_session_step(SessionPhase::AwaitRequest, SpecSessionEvent::RequestResolved(None)) == (
            SessionPhase::Closed,
            SpecSessionAction::Close,
        ),
        spec_session_step(SessionPhase::AwaitConnection, SpecSessionEvent::Connected(connected)) == (
            SessionPhase::Replying(connected),
            SpecSessionAction::SendReply(
                if connected {
                    ReplyType::Succeeded
                } else {
                    ReplyType::GeneralFailure
                },
            ),
        ),
        spec_session_step(SessionPhase::Replying(connected), SpecSessionEvent::ReplySent) == if connected {
            (SessionPhase::Relaying, SpecSessionAction::Relay)
        } else {
            (SessionPhase::Closed, SpecSessionAction::Close)
        },
        spec_session_step(SessionPhase::Relaying, SpecSessionEvent::RelayEnded) == (
            SessionPhase::Closed,
            SpecSessionAction::Close,
        ),
{
}

/// A whole session, for any request and either outcome of the connection:
/// the connection goes through the input chain, the request through the
/// output chain, the client is answered, and data is copied after a
/// success only.
pub proof fn lemma_session_run(req: SpecLinkRequest, connected: bool)
    ensures
        session_actions(
            SessionPhase::Start,
            seq![
                SpecSessionEvent::Begin,
                SpecSessionEvent::RequestResolved(Some(req)),
                SpecSessionEvent::Connected(connected),
                SpecSessionEvent::ReplySent,
                SpecSessionEvent::RelayEnded,
            ],
        ) == seq![
            SpecSessionAction::HandleConnection,
            SpecSessionAction::Connect(req),
            SpecSessionAction::SendReply(
                if connected {
                    ReplyType::Succeeded
                } else {
                    ReplyType::GeneralFailure
                },
            ),
            if connected {
                SpecSessionAction::Relay
            } else {
                SpecSessionAction::Close
            },
            SpecSessionAction::Close,
        ],
{
    let e = seq![
        SpecSessionEvent::Begin,
        SpecSessionEvent::RequestResolved(Some(req)),
        SpecSessionEvent::Connected(connected),
        SpecSessionEvent::ReplySent,
        SpecSessionEvent::RelayEnded,
    ];
    let e1 = e.drop_first();
    let e2 = e1.drop_first();
    let e3 = e2.drop_first();
    let e4 = e3.drop_first();
    assert(e4.drop_first() =~= Seq::<SpecSessionEvent>::empty());
    assert(e4 =~= seq![SpecSessionEvent::RelayEnded]);
    assert(e3 =~= seq![SpecSessionEvent::ReplySent, SpecSessionEvent::RelayEnded]);
    assert(e2[0] == SpecSessionEvent::Connected(connected));
    assert(e1[0] == SpecSessionEvent::RequestResolved(Some(req)));
    let after = if connected { SessionPhase::Relaying } else { SessionPhase::Closed };
    let a4 = session_actions(after, e4);
    assert(e4[0] == SpecSessionEvent::RelayEnded);
    assert(spec_session_step(after, e4[0]) == (SessionPhase::Closed, SpecSessionAction::Close));
    assert(session_actions(SessionPhase::Closed, e4.drop_first()) =~= Seq::<SpecSessionAction>::empty());
    assert(a4 =~= seq![SpecSessionAction::Close]);
    let a3 = session_actions(SessionPhase::Replying(connected), e3);
    let last = if connected { SpecSessionAction::Relay } else { SpecSessionAction::Close };
    assert(a3 =~= seq![last, SpecSessionAction::Close]);
    let reply = SpecSessionAction::SendReply(
        if connected {
            ReplyType::Succeeded
        } else {
            ReplyType::GeneralFailure
        },
    );
    let a2 = session_actions(SessionPhase::AwaitConnection, e2);
    assert(a2 =~= seq![reply, last, SpecSessionAction::Close]);
    let a1 = session_actions(SessionPhase::AwaitRequest, e1);
    assert(a1 =~= seq![SpecSessionAction::Connect(req), reply, last, SpecSessionAction::Close]);
    assert(session_actions(SessionPhase::Start, e) =~= seq![
        SpecSessionAction::HandleConnection,
        SpecSessionAction::Connect(req),
        reply,
        last,
        SpecSessionAction::Close,
    ]);
}

} // verus!
