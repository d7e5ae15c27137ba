//! The request bookkeeping of a tester connection.
//!
//! A tester has at most one request in flight. The platform (an async task)
//! receives control requests from the user and messages from the socket, and
//! asks a [`ClientSession`] what each means: which request a message completes,
//! whether it goes to the user, whether a diagnostic response is held for a
//! later receive, and what to do next with the request in flight. The session
//! never performs I/O; the platform keeps the reply channel of the request in
//! flight beside it.
use vstd::prelude::*;

use crate::messages::{
    is_response_type, response_matches, DiagnosticAckCode, MessageModel, OwnedMessage,
    OwnedPayload, PayloadModel, PayloadType,
};

verus! {

/// The request in flight, by what it waits for.
#[derive(Clone, Copy, Debug, PartialEq, Eq, Structural)]
pub enum Pending {
    /// Bind the data socket.
    BindSocket,
    /// Unbind the data socket.
    UnbindSocket,
    /// Send a routing activation request.
    RoutingActivation,
    /// Wait for the response to a request of the given payload type.
    Response(PayloadType),
    /// Send a diagnostic message.
    SendDiagnosticMessage,
    /// Wait for the next diagnostic response.
    ReceiveDiagnosticResponse,
    /// Wait for the acknowledgement of a sent diagnostic message.
    Ack,
}

impl Pending {
    /// Whether this request waits on the peer, so that a deadline or a broken
    /// socket completes it with an error.
    pub open spec fn awaits_peer(self) -> bool {
        self is Response || self is Ack
    }
}

/// What a message received from the socket means.
#[derive(Debug)]
pub enum Received {
    /// Nothing to report.
    Nothing,
    /// The awaited acknowledgement was positive: the send completes.
    AckConfirmed,
    /// The awaited acknowledgement was negative, with this code.
    AckRefused(DiagnosticAckCode),
    /// The awaited response arrived.
    Answered(OwnedMessage),
    /// A message of another type arrived while a response was awaited.
    Unexpected(PayloadType),
    /// A diagnostic message arrived with no request in flight and is held for
    /// the next receive.
    Buffered,
    /// A message arrived with no request in flight; it goes to the user.
    Forward(OwnedMessage),
}

/// What a received message means, over message models.
pub enum ReceivedModel {
    /// Nothing to report.
    Nothing,
    /// Positive acknowledgement.
    AckConfirmed,
    /// Negative acknowledgement.
    AckRefused(DiagnosticAckCode),
    /// The awaited response.
    Answered(MessageModel),
    /// An unexpected message type.
    Unexpected(PayloadType),
    /// Held for the next receive.
    Buffered,
    /// For the user.
    Forward(MessageModel),
}

impl View for Received {
    type V = ReceivedModel;

    open spec fn view(&self) -> ReceivedModel {
        match self {
            Received::Nothing => ReceivedModel::Nothing,
            Received::AckConfirmed => ReceivedModel::AckConfirmed,
            Received::AckRefused(c) => ReceivedModel::AckRefused(*c),
            Received::Answered(m) => ReceivedModel::Answered(m@),
            Received::Unexpected(t) => ReceivedModel::Unexpected(*t),
            Received::Buffered => ReceivedModel::Buffered,
            Received::Forward(m) => ReceivedModel::Forward(m@),
        }
    }
}

/// Which configured timeout bounds the wait that a sent request starts.
#[derive(Debug, Clone, Copy, PartialEq, Eq, Structural)]
pub enum DeadlineKind {
    /// The data socket's initial inactivity timeout: a routing activation
    /// response is awaited that long.
    InitialInactivity,
    /// The client's configured diagnostic message timeout: the acknowledgement
    /// of a diagnostic message is awaited that long.
    DiagnosticMessage,
}

/// What to do next with the request in flight.
#[derive(Debug)]
pub enum ControlStep {
    /// Nothing to do now.
    Idle,
    /// Bind the data socket, then report with [`ClientSession::bind_done`].
    Bind,
    /// Unbind the data socket; [`ClientSession::unbind`] says whether one was bound.
    Unbind,
    /// Send the routing activation request, then report with
    /// [`ClientSession::routing_request_sent`].
    SendRoutingActivation,
    /// Send the diagnostic message, then report with
    /// [`ClientSession::diagnostic_sent`].
    SendDiagnostic,
    /// The request needs a bound socket and there is none.
    NotBound,
    /// Answer the receive with this held diagnostic response.
    Deliver(OwnedMessage),
    /// Arm the receive's own deadline and wait for a diagnostic response.
    AwaitDiagnosticResponse,
}

/// What to do next, over message models.
pub enum ControlStepModel {
    /// Nothing.
    Idle,
    /// Bind.
    Bind,
    /// Unbind.
    Unbind,
    /// Send the routing activation request.
    SendRoutingActivation,
    /// Send the diagnostic message.
    SendDiagnostic,
    /// No socket.
    NotBound,
    /// Deliver a held response.
    Deliver(MessageModel),
    /// Wait for a diagnostic response.
    AwaitDiagnosticResponse,
}

impl View for ControlStep {
    type V = ControlStepModel;

    open spec fn view(&self) -> ControlStepModel {
        match self {
            ControlStep::Idle => ControlStepModel::Idle,
            ControlStep::Bind => ControlStepModel::Bind,
            ControlStep::Unbind => ControlStepModel::Unbind,
            ControlStep::SendRoutingActivation => ControlStepModel::SendRoutingActivation,
            ControlStep::SendDiagnostic => ControlStepModel::SendDiagnostic,
            ControlStep::NotBound => ControlStepModel::NotBound,
            ControlStep::Deliver(m) => ControlStepModel::Deliver(m@),
            ControlStep::AwaitDiagnosticResponse => ControlStepModel::AwaitDiagnosticResponse,
        }
    }
}

/// The session state of a tester connection.
#[derive(Debug)]
pub struct ClientSession {
    pending: Option<Pending>,
    deadline_armed: bool,
    bound: bool,
    buffered: Option<OwnedMessage>,
}

/// What a session is.
pub struct ClientSessionModel {
    /// The request in flight.
    pub pending: Option<Pending>,
    /// Whether a deadline for the request in flight is running.
    pub deadline_armed: bool,
    /// Whether the data socket is bound.
    pub bound: bool,
    /// A diagnostic response that arrived with no request in flight.
    pub buffered: Option<MessageModel>,
}

impl View for ClientSession {
    type V = ClientSessionModel;

    closed spec fn view(&self) -> ClientSessionModel {
        ClientSessionModel {
            pending: self.pending,
            deadline_armed: self.deadline_armed,
            bound: self.bound,
            buffered: match self.buffered {
                Some(m) => Some(m@),
                None => None,
            },
        }
    }
}

impl ClientSessionModel {
    /// The session with `pending` in flight and `armed` for its deadline.
    pub open spec fn with_pending(self, pending: Option<Pending>, armed: bool) -> ClientSessionModel {
        ClientSessionModel {
            pending,
            deadline_armed: armed,
            bound: self.bound,
            buffered: self.buffered,
        }
    }

    /// A new request replaces the one in flight, which is handed back so that
    /// it can be told it was superseded; no deadline runs for the new one yet.
    pub open spec fn supersede(self, next: Pending) -> (Option<Pending>, ClientSessionModel) {
        (self.pending, self.with_pending(Some(next), false))
    }

    /// The deadline elapsed: a request waiting on the peer is taken and handed
    /// back to be failed; any other stays. The deadline is spent either way.
    /// Nothing happens unless a request is in flight and a deadline is armed.
    pub open spec fn deadline(self) -> (Option<Pending>, ClientSessionModel) {
        if !(self.pending is Some && self.deadline_armed) {
            (None, self)
        } else if self.pending->0.awaits_peer() {
            (self.pending, self.with_pending(None, false))
        } else {
            (None, self.with_pending(self.pending, false))
        }
    }

    /// A message arrived from the socket: whether to answer it with an alive
    /// check response, what it means, and the session afterwards.
    ///
    /// An acknowledgement completes an awaited acknowledgement; otherwise a
    /// positive one is absorbed. Any other message (and a negative
    /// acknowledgement not awaited) completes an awaited response, as the answer
    /// when its type answers the request and as unexpected when not; with no
    /// request in flight, a diagnostic message is held and anything else goes
    /// to the user.
    pub open spec fn receive(self, m: MessageModel) -> (bool, ReceivedModel, ClientSessionModel) {
        let alive = m.payload is AliveCheckRequest;
        if m.payload is DiagnosticMessageAck && self.pending == Some(Pending::Ack) {
            let code = m.payload->DiagnosticMessageAck_0.ack_code;
            (
                alive,
                if code.spec_is_positive_ack() {
                    ReceivedModel::AckConfirmed
                } else {
                    ReceivedModel::AckRefused(code)
                },
                self.with_pending(None, false),
            )
        } else if m.payload is DiagnosticMessageAck
            && m.payload->DiagnosticMessageAck_0.ack_code.spec_is_positive_ack() {
            (alive, ReceivedModel::Nothing, self)
        } else {
            match self.pending {
                Some(Pending::Response(request)) => (
                    alive,
                    if is_response_type(request, m.header.payload_type) {
                        ReceivedModel::Answered(m)
                    } else {
                        ReceivedModel::Unexpected(m.header.payload_type)
                    },
                    self.with_pending(None, self.deadline_armed),
                ),
                None => if m.payload is DiagnosticMessage {
                    (
                        alive,
                        ReceivedModel::Buffered,
                        ClientSessionModel {
                            pending: self.pending,
                            deadline_armed: self.deadline_armed,
                            bound: self.bound,
                            buffered: Some(m),
                        },
                    )
                } else {
                    (alive, ReceivedModel::Forward(m), self)
                },
                Some(_) => (alive, ReceivedModel::Nothing, self),
            }
        }
    }

    /// The socket broke: it is unbound, the deadline is dropped, and the request
    /// in flight is taken; it is handed back to be failed when it waits on the
    /// peer.
    pub open spec fn socket_error(self) -> (Option<Pending>, ClientSessionModel) {
        (
            if self.pending matches Some(p) && p.awaits_peer() {
                self.pending
            } else {
                None
            },
            ClientSessionModel {
                pending: None,
                deadline_armed: false,
                bound: false,
                buffered: self.buffered,
            },
        )
    }

    /// The next thing to do with the request in flight, and the session
    /// afterwards. Requests that wait on the peer stay in flight; the others are
    /// taken. A receive is answered from the held response if there is one, even
    /// once the socket is gone; otherwise it needs a bound socket and waits for a
    /// diagnostic message under its own deadline.
    pub open spec fn control(self) -> (ControlStepModel, ClientSessionModel) {
        match self.pending {
            None => (ControlStepModel::Idle, self),
            Some(Pending::BindSocket) => (ControlStepModel::Bind, self.with_pending(None, self.deadline_armed)),
            Some(Pending::UnbindSocket) => (ControlStepModel::Unbind, self.with_pending(None, self.deadline_armed)),
            Some(Pending::RoutingActivation) => (
                ControlStepModel::SendRoutingActivation,
                self.with_pending(None, self.deadline_armed),
            ),
            Some(Pending::Response(_)) | Some(Pending::Ack) => (ControlStepModel::Idle, self),
            Some(Pending::SendDiagnosticMessage) => if !self.bound {
                (ControlStepModel::NotBound, self.with_pending(None, self.deadline_armed))
            } else {
                (ControlStepModel::SendDiagnostic, self.with_pending(None, self.deadline_armed))
            },
            Some(Pending::ReceiveDiagnosticResponse) => if self.buffered is Some {
                (
                    ControlStepModel::Deliver(self.buffered->0),
                    ClientSessionModel {
                        pending: None,
                        deadline_armed: self.deadline_armed,
                        bound: self.bound,
                        buffered: None,
                    },
                )
            } else if !self.bound {
                (ControlStepModel::NotBound, self.with_pending(None, self.deadline_armed))
            } else {
                (
                    ControlStepModel::AwaitDiagnosticResponse,
                    self.with_pending(Some(Pending::Response(PayloadType::DiagnosticMessage)), true),
                )
            },
        }
    }
}

impl ClientSession {
    /// A session with nothing in flight and no socket.
    pub fn new() -> (session: ClientSession)
        ensures
            session@ == (ClientSessionModel {
                pending: None,
                deadline_armed: false,
                bound: false,
                buffered: None,
            }),
    {
        ClientSession { pending: None, deadline_armed: false, bound: false, buffered: None }
    }

    /// A new request arrived: it replaces the one in flight, which is returned
    /// so that it can be told it was superseded.
    pub fn supersede(&mut self, next: Pending) -> (previous: Option<Pending>)
        ensures
            (previous, final(self)@) == old(self)@.supersede(next),
    {
        let previous = self.pending;
        self.pending = Some(next);
        self.deadline_armed = false;
        previous
    }

    /// The deadline elapsed; returns the request to fail with a timeout, if any.
    pub fn on_deadline(&mut self) -> (expired: Option<Pending>)
        ensures
            (expired, final(self)@) == old(self)@.deadline(),
    {
        if !(self.pending.is_some() && self.deadline_armed) {
            return None;
        }
        self.deadline_armed = false;
        match self.pending {
            Some(Pending::Response(t)) => {
                self.pending = None;
                Some(Pending::Response(t))
            },
            Some(Pending::Ack) => {
                self.pending = None;
                Some(Pending::Ack)
            },
            _ => None,
        }
    }

    /// A message arrived from the socket: whether to answer it with an alive
    /// check response, and what it means.
    pub fn on_message(&mut self, message: OwnedMessage) -> (r: (bool, Received))
        ensures
            (r.0, r.1@, final(self)@) == old(self)@.receive(message@),
    {
        let alive = matches!(message.payload, OwnedPayload::AliveCheckRequest);
        if let OwnedPayload::DiagnosticMessageAck(ack) = &message.payload {
            let positive = ack.ack_code.is_positive_ack();
            if matches!(self.pending, Some(Pending::Ack)) {
                self.pending = None;
                self.deadline_armed = false;
                if positive {
                    return (alive, Received::AckConfirmed);
                } else {
                    return (alive, Received::AckRefused(ack.ack_code));
                }
            }
            if positive {
                return (alive, Received::Nothing);
            }
        }
        match self.pending {
            Some(Pending::Response(request)) => {
                self.pending = None;
                let response = message.header.payload_type;
                if response_matches(request, response) {
                    (alive, Received::Answered(message))
                } else {
                    (alive, Received::Unexpected(response))
                }
            },
            None => {
                if matches!(message.payload, OwnedPayload::DiagnosticMessage(_)) {
                    self.buffered = Some(message);
                    (alive, Received::Buffered)
                } else {
                    (alive, Received::Forward(message))
                }
            },
            Some(_) => (alive, Received::Nothing),
        }
    }

    /// The socket broke; returns the request to fail with the socket's error, if any.
    pub fn on_socket_error(&mut self) -> (failed: Option<Pending>)
        ensures
            (failed, final(self)@) == old(self)@.socket_error(),
    {
        let taken = self.pending;
        self.pending = None;
        self.deadline_armed = false;
        self.bound = false;
        match taken {
            Some(Pending::Response(t)) => Some(Pending::Response(t)),
            Some(Pending::Ack) => Some(Pending::Ack),
            _ => None,
        }
    }

    /// What to do next with the request in flight.
    pub fn control_step(&mut self) -> (step: ControlStep)
        ensures
            (step@, final(self)@) == old(self)@.control(),
    {
        match self.pending {
            None => ControlStep::Idle,
            Some(Pending::BindSocket) => {
                self.pending = None;
                ControlStep::Bind
            },
            Some(Pending::UnbindSocket) => {
                self.pending = None;
                ControlStep::Unbind
            },
            Some(Pending::RoutingActivation) => {
                self.pending = None;
                ControlStep::SendRoutingActivation
            },
            Some(Pending::Response(_)) | Some(Pending::Ack) => ControlStep::Idle,
            Some(Pending::SendDiagnosticMessage) => {
                self.pending = None;
                if !self.bound {
                    ControlStep::NotBound
                } else {
                    ControlStep::SendDiagnostic
                }
            },
            Some(Pending::ReceiveDiagnosticResponse) => {
                match self.buffered.take() {
                    Some(held) => {
                        self.pending = None;
                        ControlStep::Deliver(held)
                    },
                    None => {
                        if !self.bound {
                            self.pending = None;
                            ControlStep::NotBound
                        } else {
                            self.pending = Some(Pending::Response(PayloadType::DiagnosticMessage));
                            self.deadline_armed = true;
                            ControlStep::AwaitDiagnosticResponse
                        }
                    },
                }
            },
        }
    }

    /// The bind finished; the socket is bound exactly when it succeeded (an old
    /// socket is closed before binding).
    pub fn bind_done(&mut self, ok: bool)
        ensures
            final(self)@ == (ClientSessionModel { bound: ok, ..old(self)@ }),
    {
        self.bound = ok;
    }

    /// Unbind: returns whether a socket was bound; none is afterwards.
    pub fn unbind(&mut self) -> (was_bound: bool)
        ensures
            was_bound == old(self)@.bound,
            final(self)@ == (ClientSessionModel { bound: false, ..old(self)@ }),
    {
        let was_bound = self.bound;
        self.bound = false;
        was_bound
    }

    /// The routing activation request of payload type `request` was sent (or
    /// not): once sent, its response is awaited under a deadline of the initial
    /// inactivity timeout, which is returned; nothing is armed otherwise.
    pub fn routing_request_sent(&mut self, ok: bool, request: PayloadType) -> (armed: Option<DeadlineKind>)
        ensures
            final(self)@ == if ok {
                old(self)@.with_pending(Some(Pending::Response(request)), true)
            } else {
                old(self)@
            },
            armed == if ok { Some(DeadlineKind::InitialInactivity) } else { None::<DeadlineKind> },
    {
        if ok {
            self.pending = Some(Pending::Response(request));
            self.deadline_armed = true;
            Some(DeadlineKind::InitialInactivity)
        } else {
            None
        }
    }

    /// The diagnostic message was sent (or not): once sent, its acknowledgement
    /// is awaited under a deadline of the configured diagnostic message timeout,
    /// which is returned; nothing is armed otherwise.
    pub fn diagnostic_sent(&mut self, ok: bool) -> (armed: Option<DeadlineKind>)
        ensures
            final(self)@ == if ok {
                old(self)@.with_pending(Some(Pending::Ack), true)
            } else {
                old(self)@
            },
            armed == if ok { Some(DeadlineKind::DiagnosticMessage) } else { None::<DeadlineKind> },
    {
        if ok {
            self.pending = Some(Pending::Ack);
            self.deadline_armed = true;
            Some(DeadlineKind::DiagnosticMessage)
        } else {
            None
        }
    }
}

/// A deadline only ever fails a request that waits on the peer, and always
/// spends itself.
pub proof fn lemma_deadline_fails_only_waits(st: ClientSessionModel)
    ensures
        st.deadline().0 matches Some(p) ==> p.awaits_peer() && st.pending == Some(p),
        st.pending is Some && st.deadline_armed ==> !st.deadline().1.deadline_armed,
        !(st.pending matches Some(p) && p.awaits_peer()) ==> st.deadline().1.pending == st.pending,
{
}

/// Positive acknowledgements are handled inside the session: they complete an
/// awaited acknowledgement or are absorbed, and never reach the user.
pub proof fn lemma_positive_ack_never_reaches_user(st: ClientSessionModel, m: MessageModel)
    requires
        m.payload matches PayloadModel::DiagnosticMessageAck(a) && a.ack_code.spec_is_positive_ack(),
    ensures
        st.receive(m).1 is AckConfirmed || st.receive(m).1 is Nothing,
        st.receive(m).2.buffered == st.buffered,
{
}

/// A diagnostic response that arrives before the user asks for it is not lost:
/// the next receive delivers exactly that message, even when the socket broke in
/// between, and leaves nothing held and nothing in flight.
pub proof fn lemma_early_response_is_delivered(st: ClientSessionModel, m: MessageModel)
    requires
        st.pending is None,
        m.payload is DiagnosticMessage,
    ensures
        st.receive(m).1 is Buffered,
        st.receive(m).2.supersede(Pending::ReceiveDiagnosticResponse).1.control().0
            == ControlStepModel::Deliver(m),
        st.receive(m).2.socket_error().1.supersede(Pending::ReceiveDiagnosticResponse).1.control().0
            == ControlStepModel::Deliver(m),
        st.receive(m).2.supersede(Pending::ReceiveDiagnosticResponse).1.control().1.buffered is None,
        st.receive(m).2.supersede(Pending::ReceiveDiagnosticResponse).1.control().1.pending is None,
{
}

/// Once the socket breaks nothing stays in flight, no deadline runs and the
/// socket is unbound; a request that waited on the peer is handed back to be
/// failed.
pub proof fn lemma_socket_error_clears(st: ClientSessionModel)
    ensures
        st.socket_error().1.pending is None,
        !st.socket_error().1.deadline_armed,
        !st.socket_error().1.bound,
        st.pending matches Some(p) && p.awaits_peer() ==> st.socket_error().0 == st.pending,
{
}

/// A request in flight is never dropped unanswered: a message removes it only
/// by completing it, a deadline only by handing it back to be failed, and a new
/// request only by handing it back to be told it was superseded. Between
/// control steps only requests that wait on the peer stay in flight, so a
/// broken socket hands back every request it removes.
pub proof fn lemma_requests_are_never_dropped(st: ClientSessionModel, m: MessageModel, next: Pending)
    ensures
        st.receive(m).2.pending != st.pending ==> (st.receive(m).1 is AckConfirmed
            || st.receive(m).1 is AckRefused || st.receive(m).1 is Answered
            || st.receive(m).1 is Unexpected),
        st.deadline().1.pending != st.pending ==> st.deadline().0 == st.pending,
        st.supersede(next).0 == st.pending,
        st.control().1.pending matches Some(p) ==> p.awaits_peer(),
        (st.pending matches Some(p) ==> p.awaits_peer()) ==> st.socket_error().0 == st.pending,
{
}

/// A deadline that elapses on an armed request waiting for a response (of any
/// payload type) or for an acknowledgement hands exactly that request back to be
/// failed, and leaves nothing in flight and no deadline running. On a request
/// that does not wait on the peer it hands nothing back and keeps the request.
pub proof fn lemma_deadline_fails_awaited_request(st: ClientSessionModel, t: PayloadType)
    ensures
        st.pending == Some(Pending::Response(t)) && st.deadline_armed ==> st.deadline().0 == Some(
            Pending::Response(t),
        ) && st.deadline().1.pending is None && !st.deadline().1.deadline_armed,
        st.pending == Some(Pending::Ack) && st.deadline_armed ==> st.deadline().0 == Some(Pending::Ack)
            && st.deadline().1.pending is None && !st.deadline().1.deadline_armed,
        st.pending matches Some(p) && !(p is Response || p is Ack) ==> st.deadline().0 is None
            && st.deadline().1.pending == st.pending,
        !st.deadline_armed ==> st.deadline() == (None::<Pending>, st),
{
}

/// A receive on a bound session with no held response waits under a deadline,
/// and when no response arrives before it elapses the receive is handed back to
/// be failed (as a diagnostic message response that timed out) with nothing left
/// in flight. Likewise a sent routing activation request or diagnostic message
/// whose response or acknowledgement does not arrive in time is handed back.
pub proof fn lemma_unanswered_requests_time_out(st: ClientSessionModel, request: PayloadType)
    ensures
        st.bound && st.buffered is None ==> {
            let waiting = st.supersede(Pending::ReceiveDiagnosticResponse).1.control();
            &&& waiting.0 == ControlStepModel::AwaitDiagnosticResponse
            &&& waiting.1.deadline().0 == Some(Pending::Response(PayloadType::DiagnosticMessage))
            &&& waiting.1.deadline().1.pending is None
        },
        st.with_pending(Some(Pending::Response(request)), true).deadline().0 == Some(Pending::Response(request)),
        st.with_pending(Some(Pending::Response(request)), true).deadline().1.pending is None,
        st.with_pending(Some(Pending::Ack), true).deadline().0 == Some(Pending::Ack),
        st.with_pending(Some(Pending::Ack), true).deadline().1.pending is None,
{
}

/// How an incoming message is matched to the request in flight. Any message
/// that is an alive check request is answered. An acknowledgement while one is
/// awaited completes it, confirmed when positive (code 0x00) and refused with
/// its code otherwise. While a response to a request of type `t` is awaited, any
/// message but a positive acknowledgement completes it: as the answer when its
/// payload type answers `t`, as unexpected (with its payload type) when not.
/// With nothing in flight a diagnostic message is held for the next receive and
/// any other message but a positive acknowledgement goes to the user.
pub proof fn lemma_receive_matches_request(st: ClientSessionModel, m: MessageModel, t: PayloadType)
    ensures
        st.receive(m).0 == (m.payload is AliveCheckRequest),
        st.pending == Some(Pending::Ack) && m.payload is DiagnosticMessageAck ==> {
            let code = m.payload->DiagnosticMessageAck_0.ack_code;
            &&& st.receive(m).1 == if code == DiagnosticAckCode::RoutingConfirmationAck {
                ReceivedModel::AckConfirmed
            } else {
                ReceivedModel::AckRefused(code)
            }
            &&& st.receive(m).2.pending is None
        },
        st.pending == Some(Pending::Response(t)) && !(m.payload is DiagnosticMessageAck
            && m.payload->DiagnosticMessageAck_0.ack_code == DiagnosticAckCode::RoutingConfirmationAck) ==> {
            &&& st.receive(m).1 == if is_response_type(t, m.header.payload_type) {
                ReceivedModel::Answered(m)
            } else {
                ReceivedModel::Unexpected(m.header.payload_type)
            }
            &&& st.receive(m).2.pending is None
        },
        st.pending is None && m.payload is DiagnosticMessage ==> st.receive(m).1 == ReceivedModel::Buffered
            && st.receive(m).2.buffered == Some(m),
        st.pending is None && !(m.payload is DiagnosticMessage) && !(m.payload is DiagnosticMessageAck
            && m.payload->DiagnosticMessageAck_0.ack_code == DiagnosticAckCode::RoutingConfirmationAck)
            ==> st.receive(m).1 == ReceivedModel::Forward(m),
{
}

/// What each request in flight asks the caller to do: bind, unbind, send the
/// routing activation request, send the diagnostic message when a socket is
/// bound (and report no socket otherwise); a receive delivers a held response
/// first, reports no socket when none is bound, and waits under a deadline
/// otherwise; a request waiting on the peer asks nothing.
pub proof fn lemma_control_steps(st: ClientSessionModel, t: PayloadType)
    ensures
        st.pending is None ==> st.control().0 == ControlStepModel::Idle,
        st.pending == Some(Pending::BindSocket) ==> st.control().0 == ControlStepModel::Bind,
        st.pending == Some(Pending::UnbindSocket) ==> st.control().0 == ControlStepModel::Unbind,
        st.pending == Some(Pending::RoutingActivation) ==> st.control().0
            == ControlStepModel::SendRoutingActivation,
        st.pending == Some(Pending::SendDiagnosticMessage) ==> st.control().0 == if st.bound {
            ControlStepModel::SendDiagnostic
        } else {
            ControlStepModel::NotBound
        },
        st.pending == Some(Pending::ReceiveDiagnosticResponse) ==> st.control().0 == if st.buffered is Some {
            ControlStepModel::Deliver(st.buffered->0)
        } else if st.bound {
            ControlStepModel::AwaitDiagnosticResponse
        } else {
            ControlStepModel::NotBound
        },
        st.pending == Some(Pending::Response(t)) || st.pending == Some(Pending::Ack) ==> st.control()
            == (ControlStepModel::Idle, st),
{
}

} // verus!
