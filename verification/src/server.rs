//! The server side of one connection: the ordered handshake and what
//! follows it.
//!
//! A session is an automaton. The caller performs what an action asks of
//! the transport or of a collaborator and reports the outcome as the next
//! event. The peer's streams carry no tag: the first one that the server
//! accepts is the credential exchange, the second the device descriptor
//! exchange, and only then does work begin.

use crate::auth::ConnectionGuard;
use crate::codec::{
    decode_device_info, device_info_parse, text_from_utf8, Verdict, HANDSHAKE_LIMIT,
};
use crate::types::{AccountInformation, DeviceInfo, DeviceInfoView};
use vstd::prelude::*;
use vstd::utf8::{decode_utf8, valid_utf8};

verus! {

/// The four states of a session, in the order in which it passes them.
#[derive(Debug, Clone, Copy, PartialEq, Eq, Structural)]
pub enum ServerPhase {
    AwaitingAuth,
    AwaitingDeviceInfo,
    Active,
    Closed,
}

/// Where exactly a session stands: its phase, and within a handshake phase
/// what it is waiting for.
#[derive(Debug, Clone, Copy, PartialEq, Eq, Structural)]
pub enum ServerStep {
    /// Waiting for the peer to open the credential stream.
    AuthAccept,
    /// Waiting for the credential.
    AuthRead,
    /// Waiting for the authentication collaborator.
    AuthDecide,
    /// Waiting for `authenticated` to be written.
    AuthConfirm,
    /// Waiting for `rejected` to be written, after a refused credential.
    AuthRefuse,
    /// Waiting for the peer to open the device descriptor stream.
    DeviceAccept,
    /// Waiting for the device descriptor.
    DeviceRead,
    /// Waiting for the device registry collaborator.
    DeviceDecide,
    /// Waiting for `accepted` to be written.
    DeviceConfirm,
    /// Waiting for `rejected` to be written, after a refused descriptor.
    DeviceRefuse,
    /// Pushing jobs and taking submissions.
    Working,
    /// Over.
    Closed,
}

/// The interval at which the server sends keep-alives, in seconds.
pub const KEEP_ALIVE_SECS: u64 = 2;

/// The idle time after which the server takes a peer for dead, in seconds.
pub const IDLE_TIMEOUT_SECS: u64 = 5;

/// Why a session closed.
#[derive(Debug, Clone, Copy, PartialEq, Eq, Structural)]
pub enum CloseReason {
    /// The peer left before it opened the credential stream.
    ClosedBeforeAuth,
    /// The peer left before it opened the device descriptor stream.
    ClosedBeforeDeviceInfo,
    /// A handshake stream could not be read, or held more than the limit.
    ReadFailed,
    /// The credential is not valid UTF-8.
    InvalidCredential,
    /// The authentication collaborator refused the credential.
    AuthenticationFailed,
    /// The device descriptor could not be decoded.
    MalformedDeviceInfo,
    /// No credential was on file when the device descriptor arrived.
    NoCredential,
    /// The device registry collaborator refused the descriptor.
    DeviceInfoRejected,
    /// A reply could not be written.
    WriteFailed,
    /// The connection ended while the session was active.
    ConnectionEnded,
    /// An event arrived that the session was not waiting for.
    OutOfOrder,
}

/// What the caller reports back to a session.
pub enum ServerEvent<G> {
    /// The peer opened a bidirectional stream and the server accepted it.
    StreamOpened,
    /// No stream could be accepted.
    StreamFailed,
    /// The bounded read of a handshake stream gave these bytes.
    Received(Vec<u8>),
    /// The bounded read failed.
    ReceiveFailed,
    /// The authentication collaborator accepted the credential.
    AuthAccepted(AccountInformation, G),
    /// The authentication collaborator refused the credential.
    AuthRejected,
    /// The device registry collaborator recorded the descriptor.
    DeviceAccepted,
    /// The device registry collaborator refused the descriptor.
    DeviceRejected,
    /// The reply was written and the send side closed.
    Sent,
    /// The reply could not be written.
    SendFailed,
    /// The connection has ended.
    ConnectionLost,
}

/// The mathematical value of a `ServerEvent`.
pub enum ServerEventView<G> {
    StreamOpened,
    StreamFailed,
    Received(Seq<u8>),
    ReceiveFailed,
    AuthAccepted(AccountInformation, G),
    AuthRejected,
    DeviceAccepted,
    DeviceRejected,
    Sent,
    SendFailed,
    ConnectionLost,
}

impl<G> View for ServerEvent<G> {
    type V = ServerEventView<G>;

    open spec fn view(&self) -> ServerEventView<G> {
        match *self {
            ServerEvent::StreamOpened => ServerEventView::StreamOpened,
            ServerEvent::StreamFailed => ServerEventView::StreamFailed,
            ServerEvent::Received(b) => ServerEventView::Received(b@),
            ServerEvent::ReceiveFailed => ServerEventView::ReceiveFailed,
            ServerEvent::AuthAccepted(a, g) => ServerEventView::AuthAccepted(a, g),
            ServerEvent::AuthRejected => ServerEventView::AuthRejected,
            ServerEvent::DeviceAccepted => ServerEventView::DeviceAccepted,
            ServerEvent::DeviceRejected => ServerEventView::DeviceRejected,
            ServerEvent::Sent => ServerEventView::Sent,
            ServerEvent::SendFailed => ServerEventView::SendFailed,
            ServerEvent::ConnectionLost => ServerEventView::ConnectionLost,
        }
    }
}

/// What a session asks of its caller.
pub enum ServerAction<G> {
    /// Accept the next bidirectional stream that the peer opens.
    AcceptStream,
    /// Read the accepted stream to its end, giving up beyond `limit` bytes.
    Read { limit: usize },
    /// Hand the credential to the authentication collaborator.
    Authenticate { credential: String },
    /// Hand the descriptor and the credential to the device registry
    /// collaborator.
    RecordDevice { device: DeviceInfo, credential: String },
    /// Write the reply on the accepted stream and close its send side.
    Reply { verdict: Verdict },
    /// Start the job-push loop and the submission-intake loop, and report
    /// `ConnectionLost` when the connection ends.
    StartWork { account: Option<AccountInformation> },
    /// The session is over. Release `release`, the guard that the session
    /// held, and `stray`, a guard that arrived when none was awaited.
    Close { reason: CloseReason, release: Option<G>, stray: Option<G> },
    /// The session was over already: there is nothing to do.
    Nothing,
}

/// The mathematical value of a `ServerAction`.
pub enum ServerActionView<G> {
    AcceptStream,
    Read { limit: usize },
    Authenticate { credential: Seq<char> },
    RecordDevice { device: DeviceInfoView, credential: Seq<char> },
    Reply { verdict: Verdict },
    StartWork { account: Option<AccountInformation> },
    Close { reason: CloseReason, release: Option<G>, stray: Option<G> },
    Nothing,
}

impl<G> View for ServerAction<G> {
    type V = ServerActionView<G>;

    open spec fn view(&self) -> ServerActionView<G> {
        match *self {
            ServerAction::AcceptStream => ServerActionView::AcceptStream,
            ServerAction::Read { limit } => ServerActionView::Read { limit },
            ServerAction::Authenticate { credential } => ServerActionView::Authenticate {
                credential: credential@,
            },
            ServerAction::RecordDevice { device, credential } => ServerActionView::RecordDevice {
                device: device@,
                credential: credential@,
            },
            ServerAction::Reply { verdict } => ServerActionView::Reply { verdict },
            ServerAction::StartWork { account } => ServerActionView::StartWork { account },
            ServerAction::Close { reason, release, stray } => ServerActionView::Close {
                reason,
                release,
                stray,
            },
            ServerAction::Nothing => ServerActionView::Nothing,
        }
    }
}

/// One server-side session.
pub struct ServerSession<G: ConnectionGuard> {
    step: ServerStep,
    credential: Option<String>,
    account_information: Option<AccountInformation>,
    connection_guard: Option<G>,
}

/// The mathematical value of a `ServerSession`.
pub struct ServerSessionView<G> {
    pub step: ServerStep,
    pub credential: Option<Seq<char>>,
    pub account: Option<AccountInformation>,
    pub guard: Option<G>,
}

impl<G: ConnectionGuard> View for ServerSession<G> {
    type V = ServerSessionView<G>;

    closed spec fn view(&self) -> ServerSessionView<G> {
        ServerSessionView {
            step: self.step,
            credential: match self.credential {
                Some(c) => Some(c@),
                None => None,
            },
            account: self.account_information,
            guard: self.connection_guard,
        }
    }
}

/// The phase that a step belongs to.
pub open spec fn phase_of(step: ServerStep) -> ServerPhase {
    match step {
        ServerStep::AuthAccept | ServerStep::AuthRead | ServerStep::AuthDecide
        | ServerStep::AuthConfirm | ServerStep::AuthRefuse => ServerPhase::AwaitingAuth,
        ServerStep::DeviceAccept | ServerStep::DeviceRead | ServerStep::DeviceDecide
        | ServerStep::DeviceConfirm | ServerStep::DeviceRefuse => ServerPhase::AwaitingDeviceInfo,
        ServerStep::Working => ServerPhase::Active,
        ServerStep::Closed => ServerPhase::Closed,
    }
}

/// A session that has just been created for a new connection.
pub open spec fn server_initial<G>() -> ServerSessionView<G> {
    ServerSessionView { step: ServerStep::AuthAccept, credential: None, account: None, guard: None }
}

/// The guard that an event brings with it, if any.
pub open spec fn guard_in<G>(e: ServerEventView<G>) -> Option<G> {
    match e {
        ServerEventView::AuthAccepted(_, g) => Some(g),
        _ => None,
    }
}

/// The session after it closed, and the action that tells the caller so.
pub open spec fn server_close<G>(
    s: ServerSessionView<G>,
    reason: CloseReason,
    stray: Option<G>,
) -> (ServerSessionView<G>, ServerActionView<G>) {
    (
        ServerSessionView { step: ServerStep::Closed, credential: None, account: None, guard: None },
        ServerActionView::Close { reason, release: s.guard, stray },
    )
}

/// The session at another step, with what it holds unchanged.
pub open spec fn server_at<G>(s: ServerSessionView<G>, step: ServerStep) -> ServerSessionView<G> {
    ServerSessionView { step, ..s }
}

/// The transition function of a session: the session after an event, and
/// the action that it answers with.
pub open spec fn server_next<G>(s: ServerSessionView<G>, e: ServerEventView<G>) -> (
    ServerSessionView<G>,
    ServerActionView<G>,
) {
    match s.step {
        ServerStep::AuthAccept => match e {
            ServerEventView::StreamOpened => (
                server_at(s, ServerStep::AuthRead),
                ServerActionView::Read { limit: HANDSHAKE_LIMIT },
            ),
            ServerEventView::StreamFailed => server_close(s, CloseReason::ClosedBeforeAuth, None),
            _ => server_close(s, CloseReason::OutOfOrder, guard_in(e)),
        },
        ServerStep::AuthRead => match e {
            ServerEventView::Received(bytes) => if bytes.len() > HANDSHAKE_LIMIT {
                server_close(s, CloseReason::ReadFailed, None)
            } else if valid_utf8(bytes) {
                (
                    ServerSessionView {
                        step: ServerStep::AuthDecide,
                        credential: Some(decode_utf8(bytes)),
                        ..s
                    },
                    ServerActionView::Authenticate { credential: decode_utf8(bytes) },
                )
            } else {
                server_close(s, CloseReason::InvalidCredential, None)
            },
            ServerEventView::ReceiveFailed => server_close(s, CloseReason::ReadFailed, None),
            _ => server_close(s, CloseReason::OutOfOrder, guard_in(e)),
        },
        ServerStep::AuthDecide => match e {
            ServerEventView::AuthAccepted(account, guard) => (
                ServerSessionView {
                    step: ServerStep::AuthConfirm,
                    credential: s.credential,
                    account: Some(account),
                    guard: Some(guard),
                },
                ServerActionView::Reply { verdict: Verdict::Authenticated },
            ),
            ServerEventView::AuthRejected => (
                server_at(s, ServerStep::AuthRefuse),
                ServerActionView::Reply { verdict: Verdict::Rejected },
            ),
            _ => server_close(s, CloseReason::OutOfOrder, None),
        },
        ServerStep::AuthConfirm => match e {
            ServerEventView::Sent => (
                server_at(s, ServerStep::DeviceAccept),
                ServerActionView::AcceptStream,
            ),
            ServerEventView::SendFailed => server_close(s, CloseReason::WriteFailed, None),
            _ => server_close(s, CloseReason::OutOfOrder, guard_in(e)),
        },
        ServerStep::AuthRefuse => match e {
            ServerEventView::Sent => server_close(s, CloseReason::AuthenticationFailed, None),
            ServerEventView::SendFailed => server_close(s, CloseReason::WriteFailed, None),
            _ => server_close(s, CloseReason::OutOfOrder, guard_in(e)),
        },
        ServerStep::DeviceAccept => match e {
            ServerEventView::StreamOpened => (
                server_at(s, ServerStep::DeviceRead),
                ServerActionView::Read { limit: HANDSHAKE_LIMIT },
            ),
            ServerEventView::StreamFailed => server_close(
                s,
                CloseReason::ClosedBeforeDeviceInfo,
                None,
            ),
            _ => server_close(s, CloseReason::OutOfOrder, guard_in(e)),
        },
        ServerStep::DeviceRead => match e {
            ServerEventView::Received(bytes) => if bytes.len() > HANDSHAKE_LIMIT {
                server_close(s, CloseReason::ReadFailed, None)
            } else {
                match device_info_parse(bytes) {
                    Some(device) => match s.credential {
                        Some(credential) => (
                            server_at(s, ServerStep::DeviceDecide),
                            ServerActionView::RecordDevice { device, credential },
                        ),
                        None => server_close(s, CloseReason::NoCredential, None),
                    },
                    None => server_close(s, CloseReason::MalformedDeviceInfo, None),
                }
            },
            ServerEventView::ReceiveFailed => server_close(s, CloseReason::ReadFailed, None),
            _ => server_close(s, CloseReason::OutOfOrder, guard_in(e)),
        },
        ServerStep::DeviceDecide => match e {
            ServerEventView::DeviceAccepted => (
                server_at(s, ServerStep::DeviceConfirm),
                ServerActionView::Reply { verdict: Verdict::Accepted },
            ),
            ServerEventView::DeviceRejected => (
                server_at(s, ServerStep::DeviceRefuse),
                ServerActionView::Reply { verdict: Verdict::Rejected },
            ),
            _ => server_close(s, CloseReason::OutOfOrder, guard_in(e)),
        },
        ServerStep::DeviceConfirm => match e {
            ServerEventView::Sent => (
                server_at(s, ServerStep::Working),
                ServerActionView::StartWork { account: s.account },
            ),
            ServerEventView::SendFailed => server_close(s, CloseReason::WriteFailed, None),
            _ => server_close(s, CloseReason::OutOfOrder, guard_in(e)),
        },
        ServerStep::DeviceRefuse => match e {
            ServerEventView::Sent => server_close(s, CloseReason::DeviceInfoRejected, None),
            ServerEventView::SendFailed => server_close(s, CloseReason::WriteFailed, None),
            _ => server_close(s, CloseReason::OutOfOrder, guard_in(e)),
        },
        ServerStep::Working => match e {
            ServerEventView::ConnectionLost => server_close(s, CloseReason::ConnectionEnded, None),
            _ => server_close(s, CloseReason::OutOfOrder, guard_in(e)),
        },
        ServerStep::Closed => match guard_in(e) {
            Some(guard) => server_close(s, CloseReason::OutOfOrder, Some(guard)),
            None => (s, ServerActionView::Nothing),
        },
    }
}

impl<G: ConnectionGuard> ServerSession<G> {
    /// A session for a connection that has just been accepted. Its first
    /// action is `AcceptStream`.
    pub fn new() -> (session: Self)
        ensures
            session@ == server_initial::<G>(),
    {
        ServerSession {
            step: ServerStep::AuthAccept,
            credential: None,
            account_information: None,
            connection_guard: None,
        }
    }

    /// A session for a connection that has just been accepted, and its
    /// first action: to accept the credential stream.
    pub fn start() -> (r: (Self, ServerAction<G>))
        ensures
            r.0@ == server_initial::<G>(),
            r.1@ == ServerActionView::<G>::AcceptStream,
    {
        (Self::new(), ServerAction::AcceptStream)
    }

    /// Where the session stands.
    pub fn step(&self) -> (step: ServerStep)
        ensures
            step == self@.step,
    {
        self.step
    }

    /// The phase that the session is in.
    pub fn phase(&self) -> (phase: ServerPhase)
        ensures
            phase == phase_of(self@.step),
    {
        match self.step {
            ServerStep::AuthAccept | ServerStep::AuthRead | ServerStep::AuthDecide
            | ServerStep::AuthConfirm | ServerStep::AuthRefuse => ServerPhase::AwaitingAuth,
            ServerStep::DeviceAccept | ServerStep::DeviceRead | ServerStep::DeviceDecide
            | ServerStep::DeviceConfirm | ServerStep::DeviceRefuse => {
                ServerPhase::AwaitingDeviceInfo
            },
            ServerStep::Working => ServerPhase::Active,
            ServerStep::Closed => ServerPhase::Closed,
        }
    }

    /// Whether the session holds a guard.
    pub fn holds_guard(&self) -> (held: bool)
        ensures
            held == self@.guard.is_some(),
    {
        self.connection_guard.is_some()
    }

    fn close(&mut self, reason: CloseReason, stray: Option<G>) -> (action: ServerAction<G>)
        ensures
            (final(self)@, action@) == server_close(old(self)@, reason, stray),
    {
        self.step = ServerStep::Closed;
        self.credential = None;
        self.account_information = None;
        let release = self.connection_guard.take();
        ServerAction::Close { reason, release, stray }
    }

    fn out_of_order(&mut self, event: ServerEvent<G>) -> (action: ServerAction<G>)
        ensures
            (final(self)@, action@) == server_close(
                old(self)@,
                CloseReason::OutOfOrder,
                guard_in(event@),
            ),
    {
        let stray = match event {
            ServerEvent::AuthAccepted(_, guard) => Some(guard),
            _ => None,
        };
        self.close(CloseReason::OutOfOrder, stray)
    }

    /// Takes an event and answers with the next action.
    ///
    /// The answer and the new state are those of `server_next`. An event
    /// that the session was not waiting for closes it; a closed session
    /// answers `Nothing`.
    pub fn on_event(&mut self, event: ServerEvent<G>) -> (action: ServerAction<G>)
        ensures
            (final(self)@, action@) == server_next(old(self)@, event@),
    {
        match self.step {
            ServerStep::AuthAccept => match event {
                ServerEvent::StreamOpened => {
                    self.step = ServerStep::AuthRead;
                    ServerAction::Read { limit: HANDSHAKE_LIMIT }
                },
                ServerEvent::StreamFailed => self.close(CloseReason::ClosedBeforeAuth, None),
                other => self.out_of_order(other),
            },
            ServerStep::AuthRead => match event {
                ServerEvent::Received(bytes) => {
                    if bytes.len() > HANDSHAKE_LIMIT {
                        self.close(CloseReason::ReadFailed, None)
                    } else {
                        match text_from_utf8(bytes) {
                            Some(credential) => {
                                let copy = credential.clone();
                                self.step = ServerStep::AuthDecide;
                                self.credential = Some(credential);
                                ServerAction::Authenticate { credential: copy }
                            },
                            None => self.close(CloseReason::InvalidCredential, None),
                        }
                    }
                },
                ServerEvent::ReceiveFailed => self.close(CloseReason::ReadFailed, None),
                other => self.out_of_order(other),
            },
            ServerStep::AuthDecide => match event {
                ServerEvent::AuthAccepted(account, guard) => {
                    self.step = ServerStep::AuthConfirm;
                    self.account_information = Some(account);
                    self.connection_guard = Some(guard);
                    ServerAction::Reply { verdict: Verdict::Authenticated }
                },
                ServerEvent::AuthRejected => {
                    self.step = ServerStep::AuthRefuse;
                    ServerAction::Reply { verdict: Verdict::Rejected }
                },
                other => self.out_of_order(other),
            },
            ServerStep::AuthConfirm => match event {
                ServerEvent::Sent => {
                    self.step = ServerStep::DeviceAccept;
                    ServerAction::AcceptStream
                },
                ServerEvent::SendFailed => self.close(CloseReason::WriteFailed, None),
                other => self.out_of_order(other),
            },
            ServerStep::AuthRefuse => match event {
                ServerEvent::Sent => self.close(CloseReason::AuthenticationFailed, None),
                ServerEvent::SendFailed => self.close(CloseReason::WriteFailed, None),
                other => self.out_of_order(other),
            },
            ServerStep::DeviceAccept => match event {
                ServerEvent::StreamOpened => {
                    self.step = ServerStep::DeviceRead;
                    ServerAction::Read { limit: HANDSHAKE_LIMIT }
                },
                ServerEvent::StreamFailed => self.close(CloseReason::ClosedBeforeDeviceInfo, None),
                other => self.out_of_order(other),
            },
            ServerStep::DeviceRead => match event {
                ServerEvent::Received(bytes) => {
                    if bytes.len() > HANDSHAKE_LIMIT {
                        self.close(CloseReason::ReadFailed, None)
                    } else {
                        match decode_device_info(bytes.as_slice()) {
                            Ok(device) => {
                                let credential = match &self.credential {
                                    Some(c) => Some(c.clone()),
                                    None => None,
                                };
                                match credential {
                                    Some(credential) => {
                                        self.step = ServerStep::DeviceDecide;
                                        ServerAction::RecordDevice { device, credential }
                                    },
                                    None => self.close(CloseReason::NoCredential, None),
                                }
                            },
                            Err(_) => self.close(CloseReason::MalformedDeviceInfo, None),
                        }
                    }
                },
                ServerEvent::ReceiveFailed => self.close(CloseReason::ReadFailed, None),
                other => self.out_of_order(other),
            },
            ServerStep::DeviceDecide => match event {
                ServerEvent::DeviceAccepted => {
                    self.step = ServerStep::DeviceConfirm;
                    ServerAction::Reply { verdict: Verdict::Accepted }
                },
                ServerEvent::DeviceRejected => {
                    self.step = ServerStep::DeviceRefuse;
                    ServerAction::Reply { verdict: Verdict::Rejected }
                },
                other => self.out_of_order(other),
            },
            ServerStep::DeviceConfirm => match event {
                ServerEvent::Sent => {
                    let account = match &self.account_information {
                        Some(a) => Some(a.clone()),
                        None => None,
                    };
                    self.step = ServerStep::Working;
                    ServerAction::StartWork { account }
                },
                ServerEvent::SendFailed => self.close(CloseReason::WriteFailed, None),
                other => self.out_of_order(other),
            },
            ServerStep::DeviceRefuse => match event {
                ServerEvent::Sent => self.close(CloseReason::DeviceInfoRejected, None),
                ServerEvent::SendFailed => self.close(CloseReason::WriteFailed, None),
                other => self.out_of_order(other),
            },
            ServerStep::Working => match event {
                ServerEvent::ConnectionLost => self.close(CloseReason::ConnectionEnded, None),
                other => self.out_of_order(other),
            },
            ServerStep::Closed => match event {
                ServerEvent::AuthAccepted(_, guard) => self.close(
                    CloseReason::OutOfOrder,
                    Some(guard),
                ),
                _ => ServerAction::Nothing,
            },
        }
    }
}

/// The place of a phase in the order in which a session passes them.
pub open spec fn phase_rank(phase: ServerPhase) -> nat {
    match phase {
        ServerPhase::AwaitingAuth => 0,
        ServerPhase::AwaitingDeviceInfo => 1,
        ServerPhase::Active => 2,
        ServerPhase::Closed => 3,
    }
}

/// Whether a session at this step has been authenticated and is not yet
/// closed.
pub open spec fn is_authenticated(step: ServerStep) -> bool {
    step is AuthConfirm || phase_of(step) is AwaitingDeviceInfo || phase_of(step) is Active
}

/// What a session holds at each step: an account and a guard exactly from
/// the moment the credential is accepted until the session closes, and a
/// credential from the moment it is read.
pub open spec fn server_wf<G>(s: ServerSessionView<G>) -> bool {
    &&& s.guard is Some <==> is_authenticated(s.step)
    &&& s.account is Some <==> is_authenticated(s.step)
    &&& s.credential is Some <==> is_authenticated(s.step) || s.step is AuthDecide || s.step
        is AuthRefuse
}

/// The session after a run of events.
pub open spec fn server_run<G>(s: ServerSessionView<G>, events: Seq<ServerEventView<G>>)
    -> ServerSessionView<G>
    decreases events.len(),
{
    if events.len() == 0 {
        s
    } else {
        server_run(server_next(s, events[0]).0, events.drop_first())
    }
}

/// The actions that a session answers to a run of events, in order.
pub open spec fn server_answers<G>(s: ServerSessionView<G>, events: Seq<ServerEventView<G>>)
    -> Seq<ServerActionView<G>>
    decreases events.len(),
{
    if events.len() == 0 {
        Seq::empty()
    } else {
        seq![server_next(s, events[0]).1] + server_answers(
            server_next(s, events[0]).0,
            events.drop_first(),
        )
    }
}

/// A new session is well formed, and every event leaves a well-formed
/// session well formed.
pub proof fn theorem_server_wf_holds<G>(s: ServerSessionView<G>, e: ServerEventView<G>)
    requires
        server_wf(s),
    ensures
        server_wf(server_initial::<G>()),
        server_wf(server_next(s, e).0),
{
}

/// A session passes its phases in order: an event leaves it in its phase,
/// moves it to the next one, or closes it. It skips none and re-enters
/// none, and a closed session stays closed.
pub proof fn theorem_phases_in_order<G>(s: ServerSessionView<G>, e: ServerEventView<G>)
    ensures
        ({
            let before = phase_of(s.step);
            let after = phase_of(server_next(s, e).0.step);
            after == before || after is Closed || phase_rank(after) == phase_rank(before) + 1
        }),
        s.step is Closed ==> server_next(s, e).0.step is Closed,
{
}

/// The session asks for a stream to be accepted only to enter a handshake
/// exchange, and starts work only when both exchanges have succeeded: a
/// device descriptor stream is accepted only after `authenticated` has been
/// written, and work starts only after `accepted` has been written.
pub proof fn theorem_handshake_gates<G>(s: ServerSessionView<G>, e: ServerEventView<G>)
    ensures
        server_next(s, e).1 is AcceptStream ==> s.step is AuthConfirm && e is Sent,
        server_next(s, e).1 is StartWork ==> s.step is DeviceConfirm && e is Sent,
        server_next(s, e).1 is RecordDevice ==> s.step is DeviceRead,
        server_next(s, e).1 is Authenticate ==> s.step is AuthRead,
{
}

/// No guard is lost and none appears from nowhere. The guard that a
/// well-formed session held, and the guard that an event brought, are each
/// either held afterwards or handed back in the action; and whatever is
/// held or handed back afterwards was held before or came with the event.
pub proof fn theorem_guards_conserved<G>(s: ServerSessionView<G>, e: ServerEventView<G>)
    requires
        server_wf(s),
    ensures
        ({
            let (after, action) = server_next(s, e);
            let release = if action is Close {
                action->release
            } else {
                None
            };
            let stray = if action is Close {
                action->stray
            } else {
                None
            };
            &&& s.guard is Some ==> (after.guard == s.guard && release is None) || (after.guard
                is None && release == s.guard)
            &&& guard_in(e) is Some ==> (after.guard == guard_in(e) && stray is None && s.guard
                is None) || (stray == guard_in(e))
            &&& after.guard is Some ==> after.guard == s.guard || after.guard == guard_in(e)
            &&& release is Some ==> release == s.guard
            &&& stray is Some ==> stray == guard_in(e)
        }),
{
}

/// When a session closes, by whatever path, it hands back the guard that
/// it held and keeps nothing; once it is closed it has no guard left to
/// hand back a second time.
pub proof fn theorem_close_releases_once<G>(s: ServerSessionView<G>, e: ServerEventView<G>)
    requires
        server_wf(s),
    ensures
        ({
            let (after, action) = server_next(s, e);
            &&& !(s.step is Closed) && after.step is Closed ==> action is Close && action->release
                == s.guard
            &&& after.step is Closed ==> after.guard is None && after.account is None
                && after.credential is None
            &&& s.step is Closed && action is Close ==> action->release is None
        }),
{
}

/// A handshake in which both collaborators accept ends in the active
/// phase, for every credential that is valid UTF-8 and every payload that
/// is a device descriptor. The session asks for each step in order and
/// then starts work with the account that authentication returned, still
/// holding the guard.
pub proof fn theorem_accepted_handshake_reaches_active<G>(
    credential: Seq<u8>,
    descriptor: Seq<u8>,
    account: AccountInformation,
    guard: G,
)
    requires
        credential.len() <= HANDSHAKE_LIMIT,
        valid_utf8(credential),
        descriptor.len() <= HANDSHAKE_LIMIT,
        device_info_parse(descriptor) is Some,
    ensures
        ({
            let s0 = server_initial::<G>();
            let (s1, a1) = server_next(s0, ServerEventView::StreamOpened);
            let (s2, a2) = server_next(s1, ServerEventView::Received(credential));
            let (s3, a3) = server_next(s2, ServerEventView::AuthAccepted(account, guard));
            let (s4, a4) = server_next(s3, ServerEventView::Sent);
            let (s5, a5) = server_next(s4, ServerEventView::StreamOpened);
            let (s6, a6) = server_next(s5, ServerEventView::Received(descriptor));
            let (s7, a7) = server_next(s6, ServerEventView::DeviceAccepted);
            let (s8, a8) = server_next(s7, ServerEventView::Sent);
            &&& a1 == (ServerActionView::<G>::Read { limit: HANDSHAKE_LIMIT })
            &&& a2 == (ServerActionView::<G>::Authenticate {
                credential: decode_utf8(credential),
            })
            &&& a3 == (ServerActionView::<G>::Reply { verdict: Verdict::Authenticated })
            &&& a4 == ServerActionView::<G>::AcceptStream
            &&& a5 == (ServerActionView::<G>::Read { limit: HANDSHAKE_LIMIT })
            &&& a6 == (ServerActionView::<G>::RecordDevice {
                device: device_info_parse(descriptor)->0,
                credential: decode_utf8(credential),
            })
            &&& a7 == (ServerActionView::<G>::Reply { verdict: Verdict::Accepted })
            &&& a8 == (ServerActionView::<G>::StartWork { account: Some(account) })
            &&& phase_of(s8.step) is Active
            &&& s8.guard == Some(guard)
            &&& s8.account == Some(account)
        }),
{
}

/// Whether a session has refused its peer, or is closed, and holds
/// nothing.
pub open spec fn is_turned_away<G>(s: ServerSessionView<G>) -> bool {
    &&& s.step is AuthRefuse || s.step is Closed
    &&& s.guard is None
    &&& s.account is None
}

/// Whether an action is one that a refused session may still answer with:
/// closing, or nothing.
pub open spec fn is_final_action<G>(a: ServerActionView<G>) -> bool {
    a is Nothing || (a is Close && a->release is None)
}

/// A credential that the authentication collaborator refuses is answered
/// with `rejected`, whatever the credential and however often it is
/// presented, and the session is left holding no guard and no account.
/// Once the reply is written the session closes as an authentication
/// failure, with no guard to release.
pub proof fn theorem_refused_credential_is_rejected<G>(credential: Seq<u8>)
    requires
        credential.len() <= HANDSHAKE_LIMIT,
        valid_utf8(credential),
    ensures
        ({
            let s0 = server_initial::<G>();
            let (s1, a1) = server_next(s0, ServerEventView::StreamOpened);
            let (s2, a2) = server_next(s1, ServerEventView::Received(credential));
            let (s3, a3) = server_next(s2, ServerEventView::AuthRejected);
            let (s4, a4) = server_next(s3, ServerEventView::Sent);
            &&& a3 == (ServerActionView::<G>::Reply { verdict: Verdict::Rejected })
            &&& is_turned_away(s3)
            &&& a4 == (ServerActionView::<G>::Close {
                reason: CloseReason::AuthenticationFailed,
                release: None,
                stray: None,
            })
            &&& is_turned_away(s4)
        }),
{
}

/// Once a session has refused its peer, nothing brings it back: whatever
/// events follow, it stays turned away and holds no guard, and it never
/// again asks for a stream, a read, a collaborator or work. In particular
/// no device descriptor stream is ever accepted.
pub proof fn theorem_turned_away_forever<G>(
    s: ServerSessionView<G>,
    events: Seq<ServerEventView<G>>,
)
    requires
        is_turned_away(s),
    ensures
        is_turned_away(server_run(s, events)),
        forall|i: int|
            0 <= i < events.len() ==> is_final_action(#[trigger] server_answers(s, events)[i]),
        server_answers(s, events).len() == events.len(),
    decreases events.len(),
{
    if events.len() > 0 {
        let next = server_next(s, events[0]).0;
        theorem_turned_away_forever(next, events.drop_first());
        let rest = server_answers(next, events.drop_first());
        assert forall|i: int| 0 <= i < events.len() implies is_final_action(
            #[trigger] server_answers(s, events)[i],
        ) by {
            if i > 0 {
                assert(server_answers(s, events)[i] == rest[i - 1]);
            }
        }
    }
}

/// How many guards an optional guard is: one or none.
pub open spec fn guard_count<G>(g: Option<G>) -> nat {
    if g is Some {
        1
    } else {
        0
    }
}

/// How many guards an action hands back.
pub open spec fn released_count<G>(a: ServerActionView<G>) -> nat {
    if a is Close {
        guard_count(a->release) + guard_count(a->stray)
    } else {
        0
    }
}

/// How many guards the events of a run bring with them.
pub open spec fn guards_brought<G>(events: Seq<ServerEventView<G>>) -> nat
    decreases events.len(),
{
    if events.len() == 0 {
        0
    } else {
        guard_count(guard_in(events[0])) + guards_brought(events.drop_first())
    }
}

/// How many guards a session hands back in the course of a run.
pub open spec fn guards_released<G>(s: ServerSessionView<G>, events: Seq<ServerEventView<G>>)
    -> nat
    decreases events.len(),
{
    if events.len() == 0 {
        0
    } else {
        released_count(server_next(s, events[0]).1) + guards_released(
            server_next(s, events[0]).0,
            events.drop_first(),
        )
    }
}

/// Over any run of events the guards balance: those that the session held
/// at the start and those that the events brought are, in number, those
/// that it holds at the end and those that it handed back. Since each step
/// hands back only what was held or brought, no guard is released twice
/// and none is kept back: a session that ends closed has released every
/// guard it was ever given, each exactly once.
pub proof fn theorem_every_guard_released_once<G>(
    s: ServerSessionView<G>,
    events: Seq<ServerEventView<G>>,
)
    requires
        server_wf(s),
    ensures
        server_wf(server_run(s, events)),
        guard_count(s.guard) + guards_brought(events) == guard_count(server_run(s, events).guard)
            + guards_released(s, events),
        server_run(s, events).step is Closed ==> guards_released(s, events) == guard_count(
            s.guard,
        ) + guards_brought(events),
    decreases events.len(),
{
    if events.len() > 0 {
        theorem_guards_conserved(s, events[0]);
        theorem_server_wf_holds(s, events[0]);
        theorem_every_guard_released_once(server_next(s, events[0]).0, events.drop_first());
    }
}

} // verus!
