//! The client side of one connection: the handshake as the worker drives
//! it, and the loop that turns each new submission into an exchange.
//!
//! The client opens one bidirectional stream for its credential and waits
//! for `authenticated`, then a second one for its device descriptor and
//! waits for `accepted`. Any other reply ends the session. Only after both
//! does it receive jobs and send submissions.

use crate::codec::{
    device_info_wire, encode_device_info, is_verdict, verdict_wire, CodecError, Verdict,
    HANDSHAKE_LIMIT,
};
use crate::supervisor::DriverOutcome;
use crate::types::{DeviceInfo, DeviceInfoView, Submission, SubmissionView};
use vstd::prelude::*;
use vstd::slice::slice_to_vec;
use vstd::utf8::encode_utf8;

verus! {

/// Where a client session stands.
#[derive(Debug, Clone, Copy, PartialEq, Eq, Structural)]
pub enum ClientStep {
    /// Waiting for the credential stream to open.
    AuthOpen,
    /// Waiting for the credential to be written.
    AuthSend,
    /// Waiting for the reply to the credential.
    AuthRead,
    /// Waiting for the device descriptor stream to open.
    DeviceOpen,
    /// Waiting for the device descriptor to be written.
    DeviceSend,
    /// Waiting for the reply to the device descriptor.
    DeviceRead,
    /// Receiving jobs and sending submissions.
    Working,
    /// Over.
    Closed,
}

/// Why a client session closed.
#[derive(Debug, Clone, Copy, PartialEq, Eq, Structural)]
pub enum ClientCloseReason {
    /// A handshake stream could not be opened.
    OpenFailed,
    /// A handshake message could not be written.
    WriteFailed,
    /// A reply could not be read, or was longer than the limit.
    ReadFailed,
    /// The reply to the credential was not `authenticated`.
    AuthenticationFailed,
    /// The reply to the device descriptor was not `accepted`.
    DeviceInfoRejected,
    /// The device descriptor could not be serialized.
    EncodeFailed,
    /// The submission source failed.
    SourceFailed,
    /// The connection ended while the session was active.
    ConnectionEnded,
    /// An event arrived that the session was not waiting for.
    OutOfOrder,
}

/// What the caller reports back to a client session.
pub enum ClientEvent {
    /// The bidirectional stream is open.
    StreamOpened,
    /// The stream could not be opened.
    StreamFailed,
    /// The message was written and the send side closed.
    Sent,
    /// The message could not be written.
    SendFailed,
    /// The bounded read of the reply gave these bytes.
    Received(Vec<u8>),
    /// The bounded read failed.
    ReceiveFailed,
    /// The submission source returned a new submission.
    SubmissionReady(Submission),
    /// The submission source failed.
    SourceFailed,
    /// The connection has ended.
    ConnectionLost,
}

/// The mathematical value of a `ClientEvent`.
pub enum ClientEventView {
    StreamOpened,
    StreamFailed,
    Sent,
    SendFailed,
    Received(Seq<u8>),
    ReceiveFailed,
    SubmissionReady(SubmissionView),
    SourceFailed,
    ConnectionLost,
}

impl View for ClientEvent {
    type V = ClientEventView;

    open spec fn view(&self) -> ClientEventView {
        match *self {
            ClientEvent::StreamOpened => ClientEventView::StreamOpened,
            ClientEvent::StreamFailed => ClientEventView::StreamFailed,
            ClientEvent::Sent => ClientEventView::Sent,
            ClientEvent::SendFailed => ClientEventView::SendFailed,
            ClientEvent::Received(b) => ClientEventView::Received(b@),
            ClientEvent::ReceiveFailed => ClientEventView::ReceiveFailed,
            ClientEvent::SubmissionReady(s) => ClientEventView::SubmissionReady(s@),
            ClientEvent::SourceFailed => ClientEventView::SourceFailed,
            ClientEvent::ConnectionLost => ClientEventView::ConnectionLost,
        }
    }
}

/// What a client session asks of its caller.
pub enum ClientAction {
    /// Open a bidirectional stream.
    OpenStream,
    /// Write these bytes on the open stream and close its send side.
    Send { bytes: Vec<u8> },
    /// Read the reply to its end, giving up beyond `limit` bytes.
    Read { limit: usize },
    /// Start the job-receive loop, and pull the first submission from the
    /// submission source.
    StartWork,
    /// Start an exchange of its own for this submission, and pull the next
    /// one from the submission source.
    Exchange { submission: Submission },
    /// The session is over.
    Close { reason: ClientCloseReason },
    /// The session was over already.
    Nothing,
}

/// The mathematical value of a `ClientAction`.
pub enum ClientActionView {
    OpenStream,
    Send { bytes: Seq<u8> },
    Read { limit: usize },
    StartWork,
    Exchange { submission: SubmissionView },
    Close { reason: ClientCloseReason },
    Nothing,
}

impl View for ClientAction {
    type V = ClientActionView;

    open spec fn view(&self) -> ClientActionView {
        match *self {
            ClientAction::OpenStream => ClientActionView::OpenStream,
            ClientAction::Send { bytes } => ClientActionView::Send { bytes: bytes@ },
            ClientAction::Read { limit } => ClientActionView::Read { limit },
            ClientAction::StartWork => ClientActionView::StartWork,
            ClientAction::Exchange { submission } => ClientActionView::Exchange {
                submission: submission@,
            },
            ClientAction::Close { reason } => ClientActionView::Close { reason },
            ClientAction::Nothing => ClientActionView::Nothing,
        }
    }
}

/// One client-side session.
pub struct QuiverClient {
    step: ClientStep,
    key: String,
    device_info: DeviceInfo,
}

/// The mathematical value of a `QuiverClient`.
pub struct QuiverClientView {
    pub step: ClientStep,
    pub key: Seq<char>,
    pub device: DeviceInfoView,
}

impl View for QuiverClient {
    type V = QuiverClientView;

    closed spec fn view(&self) -> QuiverClientView {
        QuiverClientView { step: self.step, key: self.key@, device: self.device_info@ }
    }
}

/// A session for a connection that has just been made.
pub open spec fn client_initial(key: Seq<char>, device: DeviceInfoView) -> QuiverClientView {
    QuiverClientView { step: ClientStep::AuthOpen, key, device }
}

/// The session after it closed, and the action that says why.
pub open spec fn client_close(s: QuiverClientView, reason: ClientCloseReason) -> (
    QuiverClientView,
    ClientActionView,
) {
    (QuiverClientView { step: ClientStep::Closed, ..s }, ClientActionView::Close { reason })
}

/// The session at another step.
pub open spec fn client_at(s: QuiverClientView, step: ClientStep) -> QuiverClientView {
    QuiverClientView { step, ..s }
}

/// The session after the device descriptor stream has opened and the
/// descriptor has been handed to the serializer: it sends the payload as
/// it is, or closes if there is none.
pub open spec fn client_encoded(s: QuiverClientView, encoded: Result<Seq<u8>, CodecError>) -> (
    QuiverClientView,
    ClientActionView,
) {
    if !(s.step is DeviceOpen) {
        client_close(s, ClientCloseReason::OutOfOrder)
    } else {
        match encoded {
            Ok(payload) => (
                client_at(s, ClientStep::DeviceSend),
                ClientActionView::Send { bytes: payload },
            ),
            Err(_) => client_close(s, ClientCloseReason::EncodeFailed),
        }
    }
}

/// The transition function of a client session.
pub open spec fn client_next(s: QuiverClientView, e: ClientEventView) -> (
    QuiverClientView,
    ClientActionView,
) {
    match s.step {
        ClientStep::AuthOpen => match e {
            ClientEventView::StreamOpened => (
                client_at(s, ClientStep::AuthSend),
                ClientActionView::Send { bytes: encode_utf8(s.key) },
            ),
            ClientEventView::StreamFailed => client_close(s, ClientCloseReason::OpenFailed),
            _ => client_close(s, ClientCloseReason::OutOfOrder),
        },
        ClientStep::AuthSend => match e {
            ClientEventView::Sent => (
                client_at(s, ClientStep::AuthRead),
                ClientActionView::Read { limit: HANDSHAKE_LIMIT },
            ),
            ClientEventView::SendFailed => client_close(s, ClientCloseReason::WriteFailed),
            _ => client_close(s, ClientCloseReason::OutOfOrder),
        },
        ClientStep::AuthRead => match e {
            ClientEventView::Received(reply) => if reply.len() > HANDSHAKE_LIMIT {
                client_close(s, ClientCloseReason::ReadFailed)
            } else if reply == verdict_wire(Verdict::Authenticated) {
                (client_at(s, ClientStep::DeviceOpen), ClientActionView::OpenStream)
            } else {
                client_close(s, ClientCloseReason::AuthenticationFailed)
            },
            ClientEventView::ReceiveFailed => client_close(s, ClientCloseReason::ReadFailed),
            _ => client_close(s, ClientCloseReason::OutOfOrder),
        },
        ClientStep::DeviceOpen => match e {
            ClientEventView::StreamOpened => client_encoded(s, Ok(device_info_wire(s.device))),
            ClientEventView::StreamFailed => client_close(s, ClientCloseReason::OpenFailed),
            _ => client_close(s, ClientCloseReason::OutOfOrder),
        },
        ClientStep::DeviceSend => match e {
            ClientEventView::Sent => (
                client_at(s, ClientStep::DeviceRead),
                ClientActionView::Read { limit: HANDSHAKE_LIMIT },
            ),
            ClientEventView::SendFailed => client_close(s, ClientCloseReason::WriteFailed),
            _ => client_close(s, ClientCloseReason::OutOfOrder),
        },
        ClientStep::DeviceRead => match e {
            ClientEventView::Received(reply) => if reply.len() > HANDSHAKE_LIMIT {
                client_close(s, ClientCloseReason::ReadFailed)
            } else if reply == verdict_wire(Verdict::Accepted) {
                (client_at(s, ClientStep::Working), ClientActionView::StartWork)
            } else {
                client_close(s, ClientCloseReason::DeviceInfoRejected)
            },
            ClientEventView::ReceiveFailed => client_close(s, ClientCloseReason::ReadFailed),
            _ => client_close(s, ClientCloseReason::OutOfOrder),
        },
        ClientStep::Working => match e {
            ClientEventView::SubmissionReady(submission) => (
                s,
                ClientActionView::Exchange { submission },
            ),
            ClientEventView::SourceFailed => client_close(s, ClientCloseReason::SourceFailed),
            ClientEventView::ConnectionLost => client_close(s, ClientCloseReason::ConnectionEnded),
            _ => client_close(s, ClientCloseReason::OutOfOrder),
        },
        ClientStep::Closed => (s, ClientActionView::Nothing),
    }
}

/// How the end of a session counts for the reconnection supervisor: a
/// connection that ended while the session was active is a clean run,
/// everything else a failure.
pub open spec fn outcome_of(reason: ClientCloseReason) -> DriverOutcome {
    if reason is ConnectionEnded {
        DriverOutcome::Completed
    } else {
        DriverOutcome::Failed
    }
}

impl ClientCloseReason {
    /// How this end of a session counts for the reconnection supervisor.
    pub fn outcome(&self) -> (o: DriverOutcome)
        ensures
            o == outcome_of(*self),
    {
        match self {
            ClientCloseReason::ConnectionEnded => DriverOutcome::Completed,
            _ => DriverOutcome::Failed,
        }
    }
}

impl QuiverClient {
    /// A session for a connection that has just been made, and its first
    /// action: to open the credential stream.
    pub fn start(key: String, device_info: DeviceInfo) -> (r: (Self, ClientAction))
        ensures
            r.0@ == client_initial(key@, device_info@),
            r.1@ == ClientActionView::OpenStream,
    {
        (QuiverClient { step: ClientStep::AuthOpen, key, device_info }, ClientAction::OpenStream)
    }

    /// Where the session stands.
    pub fn step(&self) -> (step: ClientStep)
        ensures
            step == self@.step,
    {
        self.step
    }

    fn close(&mut self, reason: ClientCloseReason) -> (action: ClientAction)
        ensures
            (final(self)@, action@) == client_close(old(self)@, reason),
    {
        self.step = ClientStep::Closed;
        ClientAction::Close { reason }
    }

    /// Takes what the serializer made of the device descriptor, once its
    /// stream is open, and answers with the next action.
    pub fn on_encoded(&mut self, encoded: Result<Vec<u8>, CodecError>) -> (action: ClientAction)
        ensures
            (final(self)@, action@) == client_encoded(
                old(self)@,
                match encoded {
                    Ok(payload) => Ok(payload@),
                    Err(e) => Err(e),
                },
            ),
    {
        if self.step != ClientStep::DeviceOpen {
            return self.close(ClientCloseReason::OutOfOrder);
        }
        match encoded {
            Ok(bytes) => {
                self.step = ClientStep::DeviceSend;
                ClientAction::Send { bytes }
            },
            Err(_) => self.close(ClientCloseReason::EncodeFailed),
        }
    }

    /// Takes an event and answers with the next action, as `client_next`
    /// says.
    pub fn on_event(&mut self, event: ClientEvent) -> (action: ClientAction)
        ensures
            (final(self)@, action@) == client_next(old(self)@, event@),
    {
        match self.step {
            ClientStep::AuthOpen => match event {
                ClientEvent::StreamOpened => {
                    let bytes = slice_to_vec(self.key.as_str().as_bytes());
                    self.step = ClientStep::AuthSend;
                    ClientAction::Send { bytes }
                },
                ClientEvent::StreamFailed => self.close(ClientCloseReason::OpenFailed),
                _ => self.close(ClientCloseReason::OutOfOrder),
            },
            ClientStep::AuthSend => match event {
                ClientEvent::Sent => {
                    self.step = ClientStep::AuthRead;
                    ClientAction::Read { limit: HANDSHAKE_LIMIT }
                },
                ClientEvent::SendFailed => self.close(ClientCloseReason::WriteFailed),
                _ => self.close(ClientCloseReason::OutOfOrder),
            },
            ClientStep::AuthRead => match event {
                ClientEvent::Received(reply) => {
                    if reply.len() > HANDSHAKE_LIMIT {
                        self.close(ClientCloseReason::ReadFailed)
                    } else if is_verdict(reply.as_slice(), Verdict::Authenticated) {
                        self.step = ClientStep::DeviceOpen;
                        ClientAction::OpenStream
                    } else {
                        self.close(ClientCloseReason::AuthenticationFailed)
                    }
                },
                ClientEvent::ReceiveFailed => self.close(ClientCloseReason::ReadFailed),
                _ => self.close(ClientCloseReason::OutOfOrder),
            },
            ClientStep::DeviceOpen => match event {
                ClientEvent::StreamOpened => {
                    let encoded = encode_device_info(&self.device_info);
                    self.on_encoded(encoded)
                },
                ClientEvent::StreamFailed => self.close(ClientCloseReason::OpenFailed),
                _ => self.close(ClientCloseReason::OutOfOrder),
            },
            ClientStep::DeviceSend => match event {
                ClientEvent::Sent => {
                    self.step = ClientStep::DeviceRead;
                    ClientAction::Read { limit: HANDSHAKE_LIMIT }
                },
                ClientEvent::SendFailed => self.close(ClientCloseReason::WriteFailed),
                _ => self.close(ClientCloseReason::OutOfOrder),
            },
            ClientStep::DeviceRead => match event {
                ClientEvent::Received(reply) => {
                    if reply.len() > HANDSHAKE_LIMIT {
                        self.close(ClientCloseReason::ReadFailed)
                    } else if is_verdict(reply.as_slice(), Verdict::Accepted) {
                        self.step = ClientStep::Working;
                        ClientAction::StartWork
                    } else {
                        self.close(ClientCloseReason::DeviceInfoRejected)
                    }
                },
                ClientEvent::ReceiveFailed => self.close(ClientCloseReason::ReadFailed),
                _ => self.close(ClientCloseReason::OutOfOrder),
            },
            ClientStep::Working => match event {
                ClientEvent::SubmissionReady(submission) => ClientAction::Exchange { submission },
                ClientEvent::SourceFailed => self.close(ClientCloseReason::SourceFailed),
                ClientEvent::ConnectionLost => self.close(ClientCloseReason::ConnectionEnded),
                _ => self.close(ClientCloseReason::OutOfOrder),
            },
            ClientStep::Closed => ClientAction::Nothing,
        }
    }
}

/// The place of a step in the order in which a session passes them.
pub open spec fn client_rank(step: ClientStep) -> nat {
    match step {
        ClientStep::AuthOpen => 0,
        ClientStep::AuthSend => 1,
        ClientStep::AuthRead => 2,
        ClientStep::DeviceOpen => 3,
        ClientStep::DeviceSend => 4,
        ClientStep::DeviceRead => 5,
        ClientStep::Working => 6,
        ClientStep::Closed => 7,
    }
}

/// A client session never goes back: an event leaves it at its step,
/// takes it one step on, or closes it; it keeps its credential and its
/// descriptor throughout; and a closed session stays closed.
pub proof fn theorem_client_steps_in_order(
    s: QuiverClientView,
    e: ClientEventView,
    after: QuiverClientView,
    action: ClientActionView,
)
    requires
        (after, action) == client_next(s, e),
    ensures
        after.step == s.step || after.step is Closed || client_rank(after.step) == client_rank(
            s.step,
        ) + 1,
        after.key == s.key && after.device == s.device,
        s.step is Closed ==> after == s && action is Nothing,
{
}

/// The client starts work only on the reply `accepted` to its device
/// descriptor, sends its descriptor only after the reply `authenticated`
/// to its credential, and hands a submission to an exchange only while it
/// is working.
pub proof fn theorem_client_handshake_gates(
    s: QuiverClientView,
    e: ClientEventView,
    after: QuiverClientView,
    action: ClientActionView,
)
    requires
        (after, action) == client_next(s, e),
    ensures
        action is StartWork ==> s.step is DeviceRead && e == ClientEventView::Received(
            verdict_wire(Verdict::Accepted),
        ),
        action is OpenStream ==> s.step is AuthRead && e == ClientEventView::Received(
            verdict_wire(Verdict::Authenticated),
        ),
        action is Exchange ==> s.step is Working && e == ClientEventView::SubmissionReady(
            action->submission,
        ),
        after.step is Working ==> s.step is Working || action is StartWork,
{
}

/// Any reply to the credential but `authenticated` ends the session as a
/// failure, with no device descriptor exchange: the session is closed, and
/// a closed session never opens another stream. A reply within the limit
/// is reported as an authentication failure.
pub proof fn theorem_other_reply_is_authentication_failure(
    s: QuiverClientView,
    reply: Seq<u8>,
    after: QuiverClientView,
    action: ClientActionView,
)
    requires
        s.step is AuthRead,
        reply != verdict_wire(Verdict::Authenticated),
        (after, action) == client_next(s, ClientEventView::Received(reply)),
    ensures
        after.step is Closed,
        action is Close,
        reply.len() <= HANDSHAKE_LIMIT ==> action->reason is AuthenticationFailed,
        outcome_of(action->reason) is Failed,
{
}

/// A handshake that is answered `authenticated` and then `accepted`
/// reaches the working step: the client sends its credential as it is,
/// then its device descriptor, and starts work.
pub proof fn theorem_client_handshake_reaches_working(key: Seq<char>, device: DeviceInfoView)
    ensures
        ({
            let s0 = client_initial(key, device);
            let (s1, a1) = client_next(s0, ClientEventView::StreamOpened);
            let (s2, a2) = client_next(s1, ClientEventView::Sent);
            let (s3, a3) = client_next(
                s2,
                ClientEventView::Received(verdict_wire(Verdict::Authenticated)),
            );
            let (s4, a4) = client_next(s3, ClientEventView::StreamOpened);
            let (s5, a5) = client_next(s4, ClientEventView::Sent);
            let (s6, a6) = client_next(
                s5,
                ClientEventView::Received(verdict_wire(Verdict::Accepted)),
            );
            &&& a1 == (ClientActionView::Send { bytes: encode_utf8(key) })
            &&& a2 == (ClientActionView::Read { limit: HANDSHAKE_LIMIT })
            &&& a3 == ClientActionView::OpenStream
            &&& a4 == (ClientActionView::Send { bytes: device_info_wire(device) })
            &&& a5 == (ClientActionView::Read { limit: HANDSHAKE_LIMIT })
            &&& a6 == ClientActionView::StartWork
            &&& s6.step is Working
        }),
{
}

} // verus!
