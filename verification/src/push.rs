//! The server's job-push loop: one long-lived unidirectional stream on
//! which every new template is sent as a frame.
//!
//! The loop asks the template source for the successor of the template it
//! sent last. A failure of the source is no reason to stop: the loop asks
//! again, since a worker that hears nothing would mine stale work for
//! ever. Only the stream itself can end the loop.

use crate::codec::{encode_template, frame, frame_wire, template_wire, CodecError};
use crate::types::{Template, TemplateView};
use vstd::prelude::*;

verus! {

/// Where the loop stands.
#[derive(Debug, Clone, Copy, PartialEq, Eq, Structural)]
pub enum PushStep {
    /// Waiting for the stream to open.
    Opening,
    /// Waiting for the template source.
    Pulling,
    /// Waiting for a frame to be written.
    Sending,
    /// Over.
    Stopped,
}

/// Why the loop stopped.
#[derive(Debug, Clone, Copy, PartialEq, Eq, Structural)]
pub enum PushStop {
    /// The stream could not be opened.
    OpenFailed,
    /// A template could not be serialized.
    EncodeFailed,
    /// A template is too long for a frame.
    TooLarge,
    /// A frame could not be written.
    WriteFailed,
    /// An event arrived that the loop was not waiting for.
    OutOfOrder,
}

/// What the caller reports back to the loop.
pub enum PushEvent {
    /// The unidirectional stream is open.
    StreamOpened,
    /// The stream could not be opened.
    StreamFailed,
    /// The template source returned the next template.
    Pulled(Template),
    /// The template source failed.
    PullFailed,
    /// The frame was written.
    Sent,
    /// The frame could not be written.
    SendFailed,
}

/// The mathematical value of a `PushEvent`.
pub enum PushEventView {
    StreamOpened,
    StreamFailed,
    Pulled(TemplateView),
    PullFailed,
    Sent,
    SendFailed,
}

impl View for PushEvent {
    type V = PushEventView;

    open spec fn view(&self) -> PushEventView {
        match *self {
            PushEvent::StreamOpened => PushEventView::StreamOpened,
            PushEvent::StreamFailed => PushEventView::StreamFailed,
            PushEvent::Pulled(t) => PushEventView::Pulled(t@),
            PushEvent::PullFailed => PushEventView::PullFailed,
            PushEvent::Sent => PushEventView::Sent,
            PushEvent::SendFailed => PushEventView::SendFailed,
        }
    }
}

/// What the loop asks of its caller.
pub enum PushAction {
    /// Open the unidirectional stream.
    OpenStream,
    /// Ask the template source for the successor of `current`.
    Pull { current: Template },
    /// Write these bytes on the stream.
    Send { frame: Vec<u8> },
    /// The loop is over.
    Stop { reason: PushStop },
    /// The loop was over already.
    Nothing,
}

/// The mathematical value of a `PushAction`.
pub enum PushActionView {
    OpenStream,
    Pull { current: TemplateView },
    Send { frame: Seq<u8> },
    Stop { reason: PushStop },
    Nothing,
}

impl View for PushAction {
    type V = PushActionView;

    open spec fn view(&self) -> PushActionView {
        match *self {
            PushAction::OpenStream => PushActionView::OpenStream,
            PushAction::Pull { current } => PushActionView::Pull { current: current@ },
            PushAction::Send { frame } => PushActionView::Send { frame: frame@ },
            PushAction::Stop { reason } => PushActionView::Stop { reason },
            PushAction::Nothing => PushActionView::Nothing,
        }
    }
}

/// The state of the job-push loop.
pub struct JobPusher {
    step: PushStep,
    current: Template,
    pending: Option<Template>,
}

/// The mathematical value of a `JobPusher`.
pub struct JobPusherView {
    pub step: PushStep,
    /// The template that was sent last; the empty placeholder before the
    /// first.
    pub current: TemplateView,
    /// The template that is being sent.
    pub pending: Option<TemplateView>,
}

impl View for JobPusher {
    type V = JobPusherView;

    closed spec fn view(&self) -> JobPusherView {
        JobPusherView {
            step: self.step,
            current: self.current@,
            pending: match self.pending {
                Some(t) => Some(t@),
                None => None,
            },
        }
    }
}

/// The loop before its stream is open.
pub open spec fn push_initial() -> JobPusherView {
    JobPusherView { step: PushStep::Opening, current: TemplateView::empty(), pending: None }
}

/// The loop after it stopped, and the action that says so.
pub open spec fn push_stop(s: JobPusherView, reason: PushStop) -> (JobPusherView, PushActionView) {
    (
        JobPusherView { step: PushStep::Stopped, current: s.current, pending: None },
        PushActionView::Stop { reason },
    )
}

/// The loop after a template has been pulled and handed to the
/// serializer: it sends the payload, framed, or stops if there is no
/// payload or the payload is too long for a frame.
pub open spec fn push_encoded(
    s: JobPusherView,
    t: TemplateView,
    encoded: Result<Seq<u8>, CodecError>,
) -> (JobPusherView, PushActionView) {
    if !(s.step is Pulling) {
        push_stop(s, PushStop::OutOfOrder)
    } else {
        match encoded {
            Ok(payload) => if payload.len() <= u32::MAX {
                (
                    JobPusherView { step: PushStep::Sending, current: s.current, pending: Some(t) },
                    PushActionView::Send { frame: frame_wire(payload) },
                )
            } else {
                push_stop(s, PushStop::TooLarge)
            },
            Err(_) => push_stop(s, PushStop::EncodeFailed),
        }
    }
}

/// The transition function of the loop.
pub open spec fn push_next(s: JobPusherView, e: PushEventView) -> (JobPusherView, PushActionView) {
    match s.step {
        PushStep::Opening => match e {
            PushEventView::StreamOpened => (
                JobPusherView { step: PushStep::Pulling, ..s },
                PushActionView::Pull { current: s.current },
            ),
            PushEventView::StreamFailed => push_stop(s, PushStop::OpenFailed),
            _ => push_stop(s, PushStop::OutOfOrder),
        },
        PushStep::Pulling => match e {
            PushEventView::Pulled(t) => push_encoded(s, t, Ok(template_wire(t))),
            PushEventView::PullFailed => (s, PushActionView::Pull { current: s.current }),
            _ => push_stop(s, PushStop::OutOfOrder),
        },
        PushStep::Sending => match e {
            PushEventView::Sent => match s.pending {
                Some(t) => (
                    JobPusherView { step: PushStep::Pulling, current: t, pending: None },
                    PushActionView::Pull { current: t },
                ),
                None => push_stop(s, PushStop::OutOfOrder),
            },
            PushEventView::SendFailed => push_stop(s, PushStop::WriteFailed),
            _ => push_stop(s, PushStop::OutOfOrder),
        },
        PushStep::Stopped => (s, PushActionView::Nothing),
    }
}

impl JobPusher {
    /// A loop for a session that has just become active, and its first
    /// action: to open the stream.
    pub fn start() -> (r: (Self, PushAction))
        ensures
            r.0@ == push_initial(),
            r.1@ == PushActionView::OpenStream,
    {
        (
            JobPusher { step: PushStep::Opening, current: Template::placeholder(), pending: None },
            PushAction::OpenStream,
        )
    }

    /// Where the loop stands.
    pub fn step(&self) -> (step: PushStep)
        ensures
            step == self@.step,
    {
        self.step
    }

    fn stop(&mut self, reason: PushStop) -> (action: PushAction)
        ensures
            (final(self)@, action@) == push_stop(old(self)@, reason),
    {
        self.step = PushStep::Stopped;
        self.pending = None;
        PushAction::Stop { reason }
    }

    fn pull(&self) -> (action: PushAction)
        ensures
            action@ == (PushActionView::Pull { current: self@.current }),
    {
        PushAction::Pull { current: self.current.clone() }
    }

    /// Takes a template that has been pulled, and what the serializer made
    /// of it, and answers with the next action.
    pub fn on_encoded(&mut self, template: Template, encoded: Result<Vec<u8>, CodecError>) -> (action:
        PushAction)
        ensures
            (final(self)@, action@) == push_encoded(
                old(self)@,
                template@,
                match encoded {
                    Ok(payload) => Ok(payload@),
                    Err(e) => Err(e),
                },
            ),
    {
        if self.step != PushStep::Pulling {
            return self.stop(PushStop::OutOfOrder);
        }
        match encoded {
            Ok(payload) => match frame(payload.as_slice()) {
                Ok(bytes) => {
                    self.step = PushStep::Sending;
                    self.pending = Some(template);
                    PushAction::Send { frame: bytes }
                },
                Err(_) => self.stop(PushStop::TooLarge),
            },
            Err(_) => self.stop(PushStop::EncodeFailed),
        }
    }

    /// Takes an event and answers with the next action, as `push_next`
    /// says.
    pub fn on_event(&mut self, event: PushEvent) -> (action: PushAction)
        ensures
            (final(self)@, action@) == push_next(old(self)@, event@),
    {
        match self.step {
            PushStep::Opening => match event {
                PushEvent::StreamOpened => {
                    self.step = PushStep::Pulling;
                    self.pull()
                },
                PushEvent::StreamFailed => self.stop(PushStop::OpenFailed),
                _ => self.stop(PushStop::OutOfOrder),
            },
            PushStep::Pulling => match event {
                PushEvent::Pulled(t) => {
                    let encoded = encode_template(&t);
                    self.on_encoded(t, encoded)
                },
                PushEvent::PullFailed => self.pull(),
                _ => self.stop(PushStop::OutOfOrder),
            },
            PushStep::Sending => match event {
                PushEvent::Sent => match self.pending.take() {
                    Some(t) => {
                        self.step = PushStep::Pulling;
                        self.current = t;
                        self.pull()
                    },
                    None => self.stop(PushStop::OutOfOrder),
                },
                PushEvent::SendFailed => self.stop(PushStop::WriteFailed),
                _ => self.stop(PushStop::OutOfOrder),
            },
            PushStep::Stopped => PushAction::Nothing,
        }
    }
}

/// A failure of the template source never stops the loop and changes
/// nothing: the loop asks again, for the successor of the same template.
pub proof fn theorem_source_failure_is_retried(
    s: JobPusherView,
    after: JobPusherView,
    action: PushActionView,
)
    requires
        s.step is Pulling,
        (after, action) == push_next(s, PushEventView::PullFailed),
    ensures
        after == s,
        action == (PushActionView::Pull { current: s.current }),
{
}

/// What goes on the stream is the template that the source returned,
/// framed, and nothing else; and once it has been written, the next pull
/// asks for the successor of exactly that template.
pub proof fn theorem_pushes_what_was_pulled(
    s: JobPusherView,
    t: TemplateView,
    sending: JobPusherView,
    sent: PushActionView,
    after: JobPusherView,
    action: PushActionView,
)
    requires
        s.step is Pulling,
        (sending, sent) == push_next(s, PushEventView::Pulled(t)),
        sent is Send,
        (after, action) == push_next(sending, PushEventView::Sent),
    ensures
        sent->frame == frame_wire(template_wire(t)),
        after.step is Pulling,
        after.current == t,
        action == (PushActionView::Pull { current: t }),
{
}

/// The loop stops only for the stream's sake or for a template that
/// cannot be sent: never while it waits for the source and the source
/// merely fails, and a stopped loop stays stopped.
pub proof fn theorem_stops_only_for_cause(
    s: JobPusherView,
    e: PushEventView,
    after: JobPusherView,
    action: PushActionView,
)
    requires
        (after, action) == push_next(s, e),
    ensures
        action is Stop ==> after.step is Stopped,
        after.step is Stopped && !(s.step is Stopped) ==> action is Stop,
        s.step is Stopped ==> after == s && action is Nothing,
        action is Stop && action->reason is WriteFailed ==> s.step is Sending && e is SendFailed,
        action is Stop && action->reason is OpenFailed ==> s.step is Opening && e is StreamFailed,
        action is Stop && (action->reason is EncodeFailed || action->reason is TooLarge) ==> e
            is Pulled,
{
}

} // verus!
