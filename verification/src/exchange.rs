//! The client's handling of one submission: a fresh bidirectional stream,
//! one framed submission out, one framed response back.
//!
//! A response is matched to its submission by the stream alone: each
//! exchange reads from the very stream it wrote to, so exchanges that run
//! side by side cannot take each other's responses, in whatever order the
//! responses arrive.

use crate::codec::{
    be32_value, decode_response, encode_submission, frame, frame_length, frame_wire,
    response_parse, submission_wire, CodecError, FRAME_HEADER_LEN,
};
use crate::types::{Submission, SubmissionResponse, SubmissionResponseView, SubmissionView};
use vstd::prelude::*;

verus! {

/// Where an exchange stands.
#[derive(Debug, Clone, Copy, PartialEq, Eq, Structural)]
pub enum ExchangeStep {
    /// Waiting for the stream to open.
    Opening,
    /// Waiting for the submission to be written.
    Sending,
    /// Waiting for the four bytes of the response's frame header.
    ReadingHeader,
    /// Waiting for the response's payload.
    ReadingBody,
    /// Waiting for the response handler.
    Handling,
    /// Over.
    Done,
}

/// How an exchange ended.
#[derive(Debug, Clone, Copy, PartialEq, Eq, Structural)]
pub enum ExchangeOutcome {
    /// The response was handled.
    Completed,
    /// The server closed the stream before any byte of a response had
    /// arrived.
    StreamClosed,
    /// The stream could not be opened.
    OpenFailed,
    /// The submission could not be serialized.
    EncodeFailed,
    /// The submission is too long for a frame.
    TooLarge,
    /// The submission could not be written.
    WriteFailed,
    /// The response could not be read.
    ReadFailed,
    /// The stream ended inside the response's frame: inside its header or
    /// its payload.
    Truncated,
    /// The payload is no submission response.
    Malformed,
    /// The response handler failed.
    HandlerFailed,
    /// An event arrived that the exchange was not waiting for.
    OutOfOrder,
}

/// What the caller reports back to an exchange.
pub enum ExchangeEvent {
    /// The bidirectional stream is open.
    StreamOpened,
    /// The stream could not be opened.
    StreamFailed,
    /// The submission was written and the send side closed.
    Sent,
    /// The submission could not be written.
    SendFailed,
    /// Exactly the bytes asked for have arrived.
    Received(Vec<u8>),
    /// The stream ended before the bytes asked for had arrived, after this
    /// many of them.
    EndOfStream(usize),
    /// The read failed otherwise.
    ReceiveFailed,
    /// The response handler took the response.
    Handled,
    /// The response handler failed.
    HandleFailed,
}

/// The mathematical value of an `ExchangeEvent`.
pub enum ExchangeEventView {
    StreamOpened,
    StreamFailed,
    Sent,
    SendFailed,
    Received(Seq<u8>),
    EndOfStream(usize),
    ReceiveFailed,
    Handled,
    HandleFailed,
}

impl View for ExchangeEvent {
    type V = ExchangeEventView;

    open spec fn view(&self) -> ExchangeEventView {
        match *self {
            ExchangeEvent::StreamOpened => ExchangeEventView::StreamOpened,
            ExchangeEvent::StreamFailed => ExchangeEventView::StreamFailed,
            ExchangeEvent::Sent => ExchangeEventView::Sent,
            ExchangeEvent::SendFailed => ExchangeEventView::SendFailed,
            ExchangeEvent::Received(b) => ExchangeEventView::Received(b@),
            ExchangeEvent::EndOfStream(n) => ExchangeEventView::EndOfStream(n),
            ExchangeEvent::ReceiveFailed => ExchangeEventView::ReceiveFailed,
            ExchangeEvent::Handled => ExchangeEventView::Handled,
            ExchangeEvent::HandleFailed => ExchangeEventView::HandleFailed,
        }
    }
}

/// What an exchange asks of its caller.
pub enum ExchangeAction {
    /// Open a fresh bidirectional stream.
    OpenStream,
    /// Write these bytes on the stream and close its send side.
    Send { frame: Vec<u8> },
    /// Read exactly `len` bytes from the stream.
    ReadExact { len: usize },
    /// Hand the response to the response handler.
    Handle { response: SubmissionResponse },
    /// The exchange is over.
    Finish { outcome: ExchangeOutcome },
    /// The exchange was over already.
    Nothing,
}

/// The mathematical value of an `ExchangeAction`.
pub enum ExchangeActionView {
    OpenStream,
    Send { frame: Seq<u8> },
    ReadExact { len: usize },
    Handle { response: SubmissionResponseView },
    Finish { outcome: ExchangeOutcome },
    Nothing,
}

impl View for ExchangeAction {
    type V = ExchangeActionView;

    open spec fn view(&self) -> ExchangeActionView {
        match *self {
            ExchangeAction::OpenStream => ExchangeActionView::OpenStream,
            ExchangeAction::Send { frame } => ExchangeActionView::Send { frame: frame@ },
            ExchangeAction::ReadExact { len } => ExchangeActionView::ReadExact { len },
            ExchangeAction::Handle { response } => ExchangeActionView::Handle {
                response: response@,
            },
            ExchangeAction::Finish { outcome } => ExchangeActionView::Finish { outcome },
            ExchangeAction::Nothing => ExchangeActionView::Nothing,
        }
    }
}

/// The state of one submission exchange.
pub struct SubmissionExchange {
    step: ExchangeStep,
    submission: Submission,
    expected: u32,
}

/// The mathematical value of a `SubmissionExchange`.
pub struct SubmissionExchangeView {
    pub step: ExchangeStep,
    /// The submission that this exchange carries.
    pub submission: SubmissionView,
    /// The payload length that the response's header announced.
    pub expected: nat,
}

impl View for SubmissionExchange {
    type V = SubmissionExchangeView;

    closed spec fn view(&self) -> SubmissionExchangeView {
        SubmissionExchangeView {
            step: self.step,
            submission: self.submission@,
            expected: self.expected as nat,
        }
    }
}

/// An exchange for a submission that has just been pulled.
pub open spec fn exchange_initial(submission: SubmissionView) -> SubmissionExchangeView {
    SubmissionExchangeView { step: ExchangeStep::Opening, submission, expected: 0 }
}

/// The exchange after it ended, and the action that says how.
pub open spec fn exchange_finish(s: SubmissionExchangeView, outcome: ExchangeOutcome) -> (
    SubmissionExchangeView,
    ExchangeActionView,
) {
    (
        SubmissionExchangeView { step: ExchangeStep::Done, ..s },
        ExchangeActionView::Finish { outcome },
    )
}

/// The exchange after its stream has opened and its submission has been
/// handed to the serializer: it sends the payload, framed, or ends if
/// there is no payload or the payload is too long for a frame.
pub open spec fn exchange_encoded(
    s: SubmissionExchangeView,
    encoded: Result<Seq<u8>, CodecError>,
) -> (SubmissionExchangeView, ExchangeActionView) {
    if !(s.step is Opening) {
        exchange_finish(s, ExchangeOutcome::OutOfOrder)
    } else {
        match encoded {
            Ok(payload) => if payload.len() <= u32::MAX {
                (
                    SubmissionExchangeView { step: ExchangeStep::Sending, ..s },
                    ExchangeActionView::Send { frame: frame_wire(payload) },
                )
            } else {
                exchange_finish(s, ExchangeOutcome::TooLarge)
            },
            Err(_) => exchange_finish(s, ExchangeOutcome::EncodeFailed),
        }
    }
}

/// The transition function of an exchange.
pub open spec fn exchange_next(s: SubmissionExchangeView, e: ExchangeEventView) -> (
    SubmissionExchangeView,
    ExchangeActionView,
) {
    match s.step {
        ExchangeStep::Opening => match e {
            ExchangeEventView::StreamOpened => exchange_encoded(
                s,
                Ok(submission_wire(s.submission)),
            ),
            ExchangeEventView::StreamFailed => exchange_finish(s, ExchangeOutcome::OpenFailed),
            _ => exchange_finish(s, ExchangeOutcome::OutOfOrder),
        },
        ExchangeStep::Sending => match e {
            ExchangeEventView::Sent => (
                SubmissionExchangeView { step: ExchangeStep::ReadingHeader, ..s },
                ExchangeActionView::ReadExact { len: FRAME_HEADER_LEN },
            ),
            ExchangeEventView::SendFailed => exchange_finish(s, ExchangeOutcome::WriteFailed),
            _ => exchange_finish(s, ExchangeOutcome::OutOfOrder),
        },
        ExchangeStep::ReadingHeader => match e {
            ExchangeEventView::Received(bytes) => if bytes.len() == 4 {
                (
                    SubmissionExchangeView {
                        step: ExchangeStep::ReadingBody,
                        submission: s.submission,
                        expected: be32_value(bytes),
                    },
                    ExchangeActionView::ReadExact { len: be32_value(bytes) as usize },
                )
            } else {
                exchange_finish(s, ExchangeOutcome::ReadFailed)
            },
            ExchangeEventView::EndOfStream(arrived) => if arrived == 0 {
                exchange_finish(s, ExchangeOutcome::StreamClosed)
            } else {
                exchange_finish(s, ExchangeOutcome::Truncated)
            },
            ExchangeEventView::ReceiveFailed => exchange_finish(s, ExchangeOutcome::ReadFailed),
            _ => exchange_finish(s, ExchangeOutcome::OutOfOrder),
        },
        ExchangeStep::ReadingBody => match e {
            ExchangeEventView::Received(bytes) => if bytes.len() != s.expected {
                exchange_finish(s, ExchangeOutcome::ReadFailed)
            } else {
                match response_parse(bytes) {
                    Some(response) => (
                        SubmissionExchangeView { step: ExchangeStep::Handling, ..s },
                        ExchangeActionView::Handle { response },
                    ),
                    None => exchange_finish(s, ExchangeOutcome::Malformed),
                }
            },
            ExchangeEventView::EndOfStream(_) => exchange_finish(s, ExchangeOutcome::Truncated),
            ExchangeEventView::ReceiveFailed => exchange_finish(s, ExchangeOutcome::ReadFailed),
            _ => exchange_finish(s, ExchangeOutcome::OutOfOrder),
        },
        ExchangeStep::Handling => match e {
            ExchangeEventView::Handled => exchange_finish(s, ExchangeOutcome::Completed),
            ExchangeEventView::HandleFailed => exchange_finish(s, ExchangeOutcome::HandlerFailed),
            _ => exchange_finish(s, ExchangeOutcome::OutOfOrder),
        },
        ExchangeStep::Done => (s, ExchangeActionView::Nothing),
    }
}

/// Whether an end of an exchange is harmless: the response was handled, or
/// the server closed the stream before it answered, as it may on a
/// connection that is being torn down.
pub open spec fn is_benign(outcome: ExchangeOutcome) -> bool {
    outcome is Completed || outcome is StreamClosed
}

/// Whether an end of an exchange shows that the transport itself failed,
/// so that only a new connection will help.
pub open spec fn is_transport_failure(outcome: ExchangeOutcome) -> bool {
    outcome is OpenFailed || outcome is WriteFailed || outcome is ReadFailed
}

impl ExchangeOutcome {
    /// Whether this end of an exchange is harmless.
    pub fn benign(&self) -> (b: bool)
        ensures
            b == is_benign(*self),
    {
        match self {
            ExchangeOutcome::Completed | ExchangeOutcome::StreamClosed => true,
            _ => false,
        }
    }

    /// Whether this end of an exchange shows that the transport itself
    /// failed. Such an end is what the reconnection supervisor is told of
    /// as a fault.
    pub fn transport_failure(&self) -> (b: bool)
        ensures
            b == is_transport_failure(*self),
    {
        match self {
            ExchangeOutcome::OpenFailed | ExchangeOutcome::WriteFailed
            | ExchangeOutcome::ReadFailed => true,
            _ => false,
        }
    }
}

impl SubmissionExchange {
    /// An exchange for a submission that has just been pulled, and its
    /// first action: to open a stream of its own.
    pub fn start(submission: Submission) -> (r: (Self, ExchangeAction))
        ensures
            r.0@ == exchange_initial(submission@),
            r.1@ == ExchangeActionView::OpenStream,
    {
        (
            SubmissionExchange { step: ExchangeStep::Opening, submission, expected: 0 },
            ExchangeAction::OpenStream,
        )
    }

    /// Where the exchange stands.
    pub fn step(&self) -> (step: ExchangeStep)
        ensures
            step == self@.step,
    {
        self.step
    }

    fn finish(&mut self, outcome: ExchangeOutcome) -> (action: ExchangeAction)
        ensures
            (final(self)@, action@) == exchange_finish(old(self)@, outcome),
    {
        self.step = ExchangeStep::Done;
        ExchangeAction::Finish { outcome }
    }

    /// Takes what the serializer made of the submission, once the stream is
    /// open, and answers with the next action.
    pub fn on_encoded(&mut self, encoded: Result<Vec<u8>, CodecError>) -> (action: ExchangeAction)
        ensures
            (final(self)@, action@) == exchange_encoded(
                old(self)@,
                match encoded {
                    Ok(payload) => Ok(payload@),
                    Err(e) => Err(e),
                },
            ),
    {
        if self.step != ExchangeStep::Opening {
            return self.finish(ExchangeOutcome::OutOfOrder);
        }
        match encoded {
            Ok(payload) => match frame(payload.as_slice()) {
                Ok(bytes) => {
                    self.step = ExchangeStep::Sending;
                    ExchangeAction::Send { frame: bytes }
                },
                Err(_) => self.finish(ExchangeOutcome::TooLarge),
            },
            Err(_) => self.finish(ExchangeOutcome::EncodeFailed),
        }
    }

    /// Takes an event and answers with the next action, as
    /// `exchange_next` says.
    pub fn on_event(&mut self, event: ExchangeEvent) -> (action: ExchangeAction)
        ensures
            (final(self)@, action@) == exchange_next(old(self)@, event@),
    {
        match self.step {
            ExchangeStep::Opening => match event {
                ExchangeEvent::StreamOpened => {
                    let encoded = encode_submission(&self.submission);
                    self.on_encoded(encoded)
                },
                ExchangeEvent::StreamFailed => self.finish(ExchangeOutcome::OpenFailed),
                _ => self.finish(ExchangeOutcome::OutOfOrder),
            },
            ExchangeStep::Sending => match event {
                ExchangeEvent::Sent => {
                    self.step = ExchangeStep::ReadingHeader;
                    ExchangeAction::ReadExact { len: FRAME_HEADER_LEN }
                },
                ExchangeEvent::SendFailed => self.finish(ExchangeOutcome::WriteFailed),
                _ => self.finish(ExchangeOutcome::OutOfOrder),
            },
            ExchangeStep::ReadingHeader => match event {
                ExchangeEvent::Received(bytes) => {
                    if bytes.len() == 4 {
                        let header: [u8; 4] = [bytes[0], bytes[1], bytes[2], bytes[3]];
                        assert(header@ =~= bytes@);
                        let len = frame_length(&header);
                        self.step = ExchangeStep::ReadingBody;
                        self.expected = len;
                        ExchangeAction::ReadExact { len: len as usize }
                    } else {
                        self.finish(ExchangeOutcome::ReadFailed)
                    }
                },
                ExchangeEvent::EndOfStream(arrived) => {
                    if arrived == 0 {
                        self.finish(ExchangeOutcome::StreamClosed)
                    } else {
                        self.finish(ExchangeOutcome::Truncated)
                    }
                },
                ExchangeEvent::ReceiveFailed => self.finish(ExchangeOutcome::ReadFailed),
                _ => self.finish(ExchangeOutcome::OutOfOrder),
            },
            ExchangeStep::ReadingBody => match event {
                ExchangeEvent::Received(bytes) => {
                    if bytes.len() != self.expected as usize {
                        self.finish(ExchangeOutcome::ReadFailed)
                    } else {
                        match decode_response(bytes.as_slice()) {
                            Ok(response) => {
                                self.step = ExchangeStep::Handling;
                                ExchangeAction::Handle { response }
                            },
                            Err(_) => self.finish(ExchangeOutcome::Malformed),
                        }
                    }
                },
                ExchangeEvent::EndOfStream(_) => self.finish(ExchangeOutcome::Truncated),
                ExchangeEvent::ReceiveFailed => self.finish(ExchangeOutcome::ReadFailed),
                _ => self.finish(ExchangeOutcome::OutOfOrder),
            },
            ExchangeStep::Handling => match event {
                ExchangeEvent::Handled => self.finish(ExchangeOutcome::Completed),
                ExchangeEvent::HandleFailed => self.finish(ExchangeOutcome::HandlerFailed),
                _ => self.finish(ExchangeOutcome::OutOfOrder),
            },
            ExchangeStep::Done => ExchangeAction::Nothing,
        }
    }
}

/// The exchange after a run of events.
pub open spec fn exchange_run(s: SubmissionExchangeView, events: Seq<ExchangeEventView>)
    -> SubmissionExchangeView
    decreases events.len(),
{
    if events.len() == 0 {
        s
    } else {
        exchange_run(exchange_next(s, events[0]).0, events.drop_first())
    }
}

/// The responses that an exchange hands to the response handler in the
/// course of a run of events, in order.
pub open spec fn exchange_handled(s: SubmissionExchangeView, events: Seq<ExchangeEventView>)
    -> Seq<SubmissionResponseView>
    decreases events.len(),
{
    if events.len() == 0 {
        Seq::empty()
    } else {
        let (after, action) = exchange_next(s, events[0]);
        let first = if action is Handle {
            seq![action->response]
        } else {
            Seq::empty()
        };
        first + exchange_handled(after, events.drop_first())
    }
}

/// Whether an exchange at this step has not yet had its response.
pub open spec fn awaits_response(step: ExchangeStep) -> bool {
    step is Opening || step is Sending || step is ReadingHeader || step is ReadingBody
}

/// A whole exchange: the submission goes out framed on the exchange's own
/// stream, and the response that comes back on that stream is the one
/// handed to the response handler.
pub proof fn theorem_exchange_hands_over_its_response(
    submission: SubmissionView,
    header: Seq<u8>,
    body: Seq<u8>,
)
    requires
        submission_wire(submission).len() <= u32::MAX,
        header.len() == 4,
        be32_value(header) == body.len(),
        response_parse(body) is Some,
    ensures
        ({
            let s0 = exchange_initial(submission);
            let (s1, a1) = exchange_next(s0, ExchangeEventView::StreamOpened);
            let (s2, a2) = exchange_next(s1, ExchangeEventView::Sent);
            let (s3, a3) = exchange_next(s2, ExchangeEventView::Received(header));
            let (s4, a4) = exchange_next(s3, ExchangeEventView::Received(body));
            let (s5, a5) = exchange_next(s4, ExchangeEventView::Handled);
            &&& a1 == (ExchangeActionView::Send { frame: frame_wire(submission_wire(submission)) })
            &&& a2 == (ExchangeActionView::ReadExact { len: FRAME_HEADER_LEN })
            &&& a3 == (ExchangeActionView::ReadExact { len: body.len() as usize })
            &&& a4 == (ExchangeActionView::Handle { response: response_parse(body)->0 })
            &&& a5 == (ExchangeActionView::Finish { outcome: ExchangeOutcome::Completed })
            &&& s5.step is Done
        }),
{
    crate::codec::lemma_be32_value_bound(header);
}

/// A stream that the server closes before it has answered at all ends
/// the exchange harmlessly; a stream that ends inside the response, be it
/// inside its header or inside its payload, does not.
pub proof fn theorem_close_before_response_is_benign(s: SubmissionExchangeView, arrived: usize)
    ensures
        s.step is ReadingHeader ==> exchange_next(s, ExchangeEventView::EndOfStream(0)).1 == (
        ExchangeActionView::Finish { outcome: ExchangeOutcome::StreamClosed }),
        s.step is ReadingHeader && arrived > 0 ==> exchange_next(
            s,
            ExchangeEventView::EndOfStream(arrived),
        ).1 == (ExchangeActionView::Finish { outcome: ExchangeOutcome::Truncated }),
        s.step is ReadingBody ==> exchange_next(s, ExchangeEventView::EndOfStream(arrived)).1 == (
        ExchangeActionView::Finish { outcome: ExchangeOutcome::Truncated }),
        is_benign(ExchangeOutcome::StreamClosed),
        !is_benign(ExchangeOutcome::Truncated),
{
}

/// An exchange hands the response handler at most one response, whatever
/// events it is fed, and none once it has had its response or has ended.
pub proof fn theorem_at_most_one_response(
    s: SubmissionExchangeView,
    events: Seq<ExchangeEventView>,
)
    ensures
        exchange_handled(s, events).len() <= 1,
        !awaits_response(s.step) ==> exchange_handled(s, events).len() == 0,
        exchange_run(s, events).submission == s.submission,
    decreases events.len(),
{
    if events.len() > 0 {
        theorem_at_most_one_response(exchange_next(s, events[0]).0, events.drop_first());
    }
}

/// The exchanges of one connection after an event for the exchange at
/// place `i`. An event for a place that holds no exchange changes nothing.
pub open spec fn pool_next(
    pool: Seq<SubmissionExchangeView>,
    i: int,
    e: ExchangeEventView,
) -> Seq<SubmissionExchangeView> {
    if 0 <= i < pool.len() {
        pool.update(i, exchange_next(pool[i], e).0)
    } else {
        pool
    }
}

/// The exchanges of one connection after a run of events, each marked
/// with the place of the exchange whose stream it came from, in whatever
/// order they arrived.
pub open spec fn pool_run(
    pool: Seq<SubmissionExchangeView>,
    arrivals: Seq<(int, ExchangeEventView)>,
) -> Seq<SubmissionExchangeView>
    decreases arrivals.len(),
{
    if arrivals.len() == 0 {
        pool
    } else {
        pool_run(pool_next(pool, arrivals[0].0, arrivals[0].1), arrivals.drop_first())
    }
}

/// The events among `arrivals` that came from the stream of the exchange
/// at place `i`, in the order in which they arrived.
pub open spec fn events_of(arrivals: Seq<(int, ExchangeEventView)>, i: int) -> Seq<
    ExchangeEventView,
>
    decreases arrivals.len(),
{
    if arrivals.len() == 0 {
        Seq::empty()
    } else {
        let first = if arrivals[0].0 == i {
            seq![arrivals[0].1]
        } else {
            Seq::empty()
        };
        first + events_of(arrivals.drop_first(), i)
    }
}

/// Exchanges that run side by side do not touch each other. However the
/// events of the streams of one connection interleave, each exchange ends
/// where it would have ended had its own events arrived alone: it still
/// carries its own submission, and the responses it hands over are those
/// that arrived on its own stream, at most one.
pub proof fn theorem_exchanges_are_independent(
    pool: Seq<SubmissionExchangeView>,
    arrivals: Seq<(int, ExchangeEventView)>,
    i: int,
)
    requires
        0 <= i < pool.len(),
    ensures
        pool_run(pool, arrivals).len() == pool.len(),
        pool_run(pool, arrivals)[i] == exchange_run(pool[i], events_of(arrivals, i)),
        pool_run(pool, arrivals)[i].submission == pool[i].submission,
        exchange_handled(pool[i], events_of(arrivals, i)).len() <= 1,
    decreases arrivals.len(),
{
    theorem_at_most_one_response(pool[i], events_of(arrivals, i));
    if arrivals.len() > 0 {
        let rest = arrivals.drop_first();
        let stepped = pool_next(pool, arrivals[0].0, arrivals[0].1);
        theorem_exchanges_are_independent(stepped, rest, i);
        if arrivals[0].0 == i {
            let own = seq![arrivals[0].1] + events_of(rest, i);
            assert(own.drop_first() =~= events_of(rest, i));
        } else {
            assert(events_of(arrivals, i) =~= events_of(rest, i));
        }
    }
}

} // verus!
