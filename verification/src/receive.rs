//! The client's job-receive loop: the server's one unidirectional stream,
//! read as an unbounded run of framed job templates.
//!
//! Each template goes to the job sink as it arrives, in the order in which
//! it arrived. A stream that ends between two frames is the ordinary end
//! of the loop, not an error; a stream that ends inside a frame is one.

use crate::codec::{be32_value, decode_template, frame_length, template_parse, FRAME_HEADER_LEN};
use crate::types::{Template, TemplateView};
use vstd::prelude::*;

verus! {

/// Where the loop stands.
#[derive(Debug, Clone, Copy, PartialEq, Eq, Structural)]
pub enum ReceiveStep {
    /// Waiting for the server's stream.
    Accepting,
    /// Waiting for the four bytes of a frame header.
    ReadingHeader,
    /// Waiting for a payload.
    ReadingBody,
    /// Waiting for the job sink.
    Delivering,
    /// Over.
    Done,
}

/// How the loop ended.
#[derive(Debug, Clone, Copy, PartialEq, Eq, Structural)]
pub enum ReceiveOutcome {
    /// The stream ended between two frames, before any byte of a header.
    StreamEnded,
    /// The server's stream could not be accepted.
    AcceptFailed,
    /// The stream could not be read.
    ReadFailed,
    /// The stream ended inside a frame: inside its header or its payload.
    Truncated,
    /// A payload is no job template.
    Malformed,
    /// The job sink failed.
    SinkFailed,
    /// An event arrived that the loop was not waiting for.
    OutOfOrder,
}

/// What the caller reports back to the loop.
pub enum ReceiveEvent {
    /// The server's unidirectional stream was accepted.
    StreamOpened,
    /// No stream could be accepted.
    StreamFailed,
    /// Exactly the bytes asked for have arrived.
    Received(Vec<u8>),
    /// The stream ended before the bytes asked for had arrived, after this
    /// many of them.
    EndOfStream(usize),
    /// The read failed otherwise.
    ReceiveFailed,
    /// The job sink took the template.
    Delivered,
    /// The job sink failed.
    DeliverFailed,
}

/// The mathematical value of a `ReceiveEvent`.
pub enum ReceiveEventView {
    StreamOpened,
    StreamFailed,
    Received(Seq<u8>),
    EndOfStream(usize),
    ReceiveFailed,
    Delivered,
    DeliverFailed,
}

impl View for ReceiveEvent {
    type V = ReceiveEventView;

    open spec fn view(&self) -> ReceiveEventView {
        match *self {
            ReceiveEvent::StreamOpened => ReceiveEventView::StreamOpened,
            ReceiveEvent::StreamFailed => ReceiveEventView::StreamFailed,
            ReceiveEvent::Received(b) => ReceiveEventView::Received(b@),
            ReceiveEvent::EndOfStream(n) => ReceiveEventView::EndOfStream(n),
            ReceiveEvent::ReceiveFailed => ReceiveEventView::ReceiveFailed,
            ReceiveEvent::Delivered => ReceiveEventView::Delivered,
            ReceiveEvent::DeliverFailed => ReceiveEventView::DeliverFailed,
        }
    }
}

/// What the loop asks of its caller.
pub enum ReceiveAction {
    /// Accept the unidirectional stream that the server opens.
    AcceptStream,
    /// Read exactly `len` bytes from the stream.
    ReadExact { len: usize },
    /// Hand the template to the job sink.
    Deliver { template: Template },
    /// The loop is over.
    Stop { outcome: ReceiveOutcome },
    /// The loop was over already.
    Nothing,
}

/// The mathematical value of a `ReceiveAction`.
pub enum ReceiveActionView {
    AcceptStream,
    ReadExact { len: usize },
    Deliver { template: TemplateView },
    Stop { outcome: ReceiveOutcome },
    Nothing,
}

impl View for ReceiveAction {
    type V = ReceiveActionView;

    open spec fn view(&self) -> ReceiveActionView {
        match *self {
            ReceiveAction::AcceptStream => ReceiveActionView::AcceptStream,
            ReceiveAction::ReadExact { len } => ReceiveActionView::ReadExact { len },
            ReceiveAction::Deliver { template } => ReceiveActionView::Deliver {
                template: template@,
            },
            ReceiveAction::Stop { outcome } => ReceiveActionView::Stop { outcome },
            ReceiveAction::Nothing => ReceiveActionView::Nothing,
        }
    }
}

/// The state of the job-receive loop.
pub struct JobReceiver {
    step: ReceiveStep,
    expected: u32,
}

/// The mathematical value of a `JobReceiver`.
pub struct JobReceiverView {
    pub step: ReceiveStep,
    /// The payload length that the last header announced.
    pub expected: nat,
}

impl View for JobReceiver {
    type V = JobReceiverView;

    closed spec fn view(&self) -> JobReceiverView {
        JobReceiverView { step: self.step, expected: self.expected as nat }
    }
}

/// The loop before the server's stream has been accepted.
pub open spec fn receive_initial() -> JobReceiverView {
    JobReceiverView { step: ReceiveStep::Accepting, expected: 0 }
}

/// The loop after it ended, and the action that says how.
pub open spec fn receive_stop(s: JobReceiverView, outcome: ReceiveOutcome) -> (
    JobReceiverView,
    ReceiveActionView,
) {
    (JobReceiverView { step: ReceiveStep::Done, ..s }, ReceiveActionView::Stop { outcome })
}

/// The loop waiting for the next frame header.
pub open spec fn receive_header(s: JobReceiverView) -> (JobReceiverView, ReceiveActionView) {
    (
        JobReceiverView { step: ReceiveStep::ReadingHeader, ..s },
        ReceiveActionView::ReadExact { len: FRAME_HEADER_LEN },
    )
}

/// The transition function of the loop.
pub open spec fn receive_next(s: JobReceiverView, e: ReceiveEventView) -> (
    JobReceiverView,
    ReceiveActionView,
) {
    match s.step {
        ReceiveStep::Accepting => match e {
            ReceiveEventView::StreamOpened => receive_header(s),
            ReceiveEventView::StreamFailed => receive_stop(s, ReceiveOutcome::AcceptFailed),
            _ => receive_stop(s, ReceiveOutcome::OutOfOrder),
        },
        ReceiveStep::ReadingHeader => match e {
            ReceiveEventView::Received(bytes) => if bytes.len() == 4 {
                (
                    JobReceiverView {
                        step: ReceiveStep::ReadingBody,
                        expected: be32_value(bytes),
                    },
                    ReceiveActionView::ReadExact { len: be32_value(bytes) as usize },
                )
            } else {
                receive_stop(s, ReceiveOutcome::ReadFailed)
            },
            ReceiveEventView::EndOfStream(arrived) => if arrived == 0 {
                receive_stop(s, ReceiveOutcome::StreamEnded)
            } else {
                receive_stop(s, ReceiveOutcome::Truncated)
            },
            ReceiveEventView::ReceiveFailed => receive_stop(s, ReceiveOutcome::ReadFailed),
            _ => receive_stop(s, ReceiveOutcome::OutOfOrder),
        },
        ReceiveStep::ReadingBody => match e {
            ReceiveEventView::Received(bytes) => if bytes.len() != s.expected {
                receive_stop(s, ReceiveOutcome::ReadFailed)
            } else {
                match template_parse(bytes) {
                    Some(template) => (
                        JobReceiverView { step: ReceiveStep::Delivering, ..s },
                        ReceiveActionView::Deliver { template },
                    ),
                    None => receive_stop(s, ReceiveOutcome::Malformed),
                }
            },
            ReceiveEventView::EndOfStream(_) => receive_stop(s, ReceiveOutcome::Truncated),
            ReceiveEventView::ReceiveFailed => receive_stop(s, ReceiveOutcome::ReadFailed),
            _ => receive_stop(s, ReceiveOutcome::OutOfOrder),
        },
        ReceiveStep::Delivering => match e {
            ReceiveEventView::Delivered => receive_header(s),
            ReceiveEventView::DeliverFailed => receive_stop(s, ReceiveOutcome::SinkFailed),
            _ => receive_stop(s, ReceiveOutcome::OutOfOrder),
        },
        ReceiveStep::Done => (s, ReceiveActionView::Nothing),
    }
}

/// Whether an end of the loop is its ordinary end rather than an error.
pub open spec fn is_clean_end(outcome: ReceiveOutcome) -> bool {
    outcome is StreamEnded
}

impl ReceiveOutcome {
    /// Whether this end of the loop is its ordinary end rather than an
    /// error.
    pub fn is_clean(&self) -> (clean: bool)
        ensures
            clean == is_clean_end(*self),
    {
        match self {
            ReceiveOutcome::StreamEnded => true,
            _ => false,
        }
    }
}

impl JobReceiver {
    /// A loop for a session that has just become active, and its first
    /// action: to accept the server's stream.
    pub fn start() -> (r: (Self, ReceiveAction))
        ensures
            r.0@ == receive_initial(),
            r.1@ == ReceiveActionView::AcceptStream,
    {
        (JobReceiver { step: ReceiveStep::Accepting, expected: 0 }, ReceiveAction::AcceptStream)
    }

    /// Where the loop stands.
    pub fn step(&self) -> (step: ReceiveStep)
        ensures
            step == self@.step,
    {
        self.step
    }

    fn stop(&mut self, outcome: ReceiveOutcome) -> (action: ReceiveAction)
        ensures
            (final(self)@, action@) == receive_stop(old(self)@, outcome),
    {
        self.step = ReceiveStep::Done;
        ReceiveAction::Stop { outcome }
    }

    fn header(&mut self) -> (action: ReceiveAction)
        ensures
            (final(self)@, action@) == receive_header(old(self)@),
    {
        self.step = ReceiveStep::ReadingHeader;
        ReceiveAction::ReadExact { len: FRAME_HEADER_LEN }
    }

    /// Takes an event and answers with the next action, as `receive_next`
    /// says.
    pub fn on_event(&mut self, event: ReceiveEvent) -> (action: ReceiveAction)
        ensures
            (final(self)@, action@) == receive_next(old(self)@, event@),
    {
        match self.step {
            ReceiveStep::Accepting => match event {
                ReceiveEvent::StreamOpened => self.header(),
                ReceiveEvent::StreamFailed => self.stop(ReceiveOutcome::AcceptFailed),
                _ => self.stop(ReceiveOutcome::OutOfOrder),
            },
            ReceiveStep::ReadingHeader => match event {
                ReceiveEvent::Received(bytes) => {
                    if bytes.len() == 4 {
                        let header: [u8; 4] = [bytes[0], bytes[1], bytes[2], bytes[3]];
                        assert(header@ =~= bytes@);
                        let len = frame_length(&header);
                        self.step = ReceiveStep::ReadingBody;
                        self.expected = len;
                        ReceiveAction::ReadExact { len: len as usize }
                    } else {
                        self.stop(ReceiveOutcome::ReadFailed)
                    }
                },
                ReceiveEvent::EndOfStream(arrived) => {
                    if arrived == 0 {
                        self.stop(ReceiveOutcome::StreamEnded)
                    } else {
                        self.stop(ReceiveOutcome::Truncated)
                    }
                },
                ReceiveEvent::ReceiveFailed => self.stop(ReceiveOutcome::ReadFailed),
                _ => self.stop(ReceiveOutcome::OutOfOrder),
            },
            ReceiveStep::ReadingBody => match event {
                ReceiveEvent::Received(bytes) => {
                    if bytes.len() != self.expected as usize {
                        self.stop(ReceiveOutcome::ReadFailed)
                    } else {
                        match decode_template(bytes.as_slice()) {
                            Ok(template) => {
                                self.step = ReceiveStep::Delivering;
                                ReceiveAction::Deliver { template }
                            },
                            Err(_) => self.stop(ReceiveOutcome::Malformed),
                        }
                    }
                },
                ReceiveEvent::EndOfStream(_) => self.stop(ReceiveOutcome::Truncated),
                ReceiveEvent::ReceiveFailed => self.stop(ReceiveOutcome::ReadFailed),
                _ => self.stop(ReceiveOutcome::OutOfOrder),
            },
            ReceiveStep::Delivering => match event {
                ReceiveEvent::Delivered => self.header(),
                ReceiveEvent::DeliverFailed => self.stop(ReceiveOutcome::SinkFailed),
                _ => self.stop(ReceiveOutcome::OutOfOrder),
            },
            ReceiveStep::Done => ReceiveAction::Nothing,
        }
    }
}

/// A frame that arrives whole is handed to the job sink as the template
/// that its payload spells, and the loop then waits for the next frame.
pub proof fn theorem_frame_is_delivered(s: JobReceiverView, header: Seq<u8>, body: Seq<u8>)
    requires
        s.step is ReadingHeader,
        header.len() == 4,
        be32_value(header) == body.len(),
        template_parse(body) is Some,
    ensures
        ({
            let (s1, a1) = receive_next(s, ReceiveEventView::Received(header));
            let (s2, a2) = receive_next(s1, ReceiveEventView::Received(body));
            let (s3, a3) = receive_next(s2, ReceiveEventView::Delivered);
            &&& a1 == (ReceiveActionView::ReadExact { len: body.len() as usize })
            &&& a2 == (ReceiveActionView::Deliver { template: template_parse(body)->0 })
            &&& a3 == (ReceiveActionView::ReadExact { len: FRAME_HEADER_LEN })
            &&& s3.step is ReadingHeader
        }),
{
    crate::codec::lemma_be32_value_bound(header);
}

/// The loop ends cleanly in one case only: the stream ended while a frame
/// header was awaited and before any byte of it had arrived. A stream that
/// ends inside a header or inside a payload, a payload that is no template
/// and a sink that fails are errors; and the loop hands the sink nothing
/// but what a payload spells.
pub proof fn theorem_clean_end_is_between_frames(s: JobReceiverView, e: ReceiveEventView)
    ensures
        ({
            let (after, action) = receive_next(s, e);
            &&& action is Stop && is_clean_end(action->outcome) <==> s.step is ReadingHeader
                && e == ReceiveEventView::EndOfStream(0)
            &&& action is Deliver ==> s.step is ReadingBody && e is Received && template_parse(
                e->Received_0,
            ) == Some(action->template)
            &&& s.step is Done ==> after == s && action is Nothing
        }),
{
}

/// A stream that ends inside a frame is an error, wherever in the frame
/// it ends: after one, two or three bytes of the header, or anywhere in
/// the payload. Nothing is handed to the sink for such a frame.
pub proof fn theorem_truncated_frame_is_an_error(s: JobReceiverView, arrived: usize)
    requires
        s.step is ReadingBody || (s.step is ReadingHeader && arrived > 0),
    ensures
        receive_next(s, ReceiveEventView::EndOfStream(arrived)).1 == (ReceiveActionView::Stop {
            outcome: ReceiveOutcome::Truncated,
        }),
        !is_clean_end(ReceiveOutcome::Truncated),
        receive_next(s, ReceiveEventView::EndOfStream(arrived)).0.step is Done,
{
}

} // verus!
