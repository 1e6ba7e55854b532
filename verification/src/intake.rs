//! The server's handling of one submission stream: read one framed
//! submission, have it judged, write back one framed response.
//!
//! Each accepted stream has an intake of its own. Whatever goes wrong on
//! one of them ends that exchange and no other.

use crate::codec::{
    be32_value, decode_submission, encode_response, frame, frame_length, frame_wire,
    response_wire, submission_parse, CodecError, FRAME_HEADER_LEN,
};
use crate::types::{
    AccountInformation, Submission, SubmissionResponse, SubmissionResponseView, SubmissionView,
};
use vstd::prelude::*;

verus! {

/// Where an intake stands.
#[derive(Debug, Clone, Copy, PartialEq, Eq, Structural)]
pub enum IntakeStep {
    /// Waiting for the four bytes of the frame header.
    ReadingHeader,
    /// Waiting for the payload.
    ReadingBody,
    /// Waiting for the submission collaborator.
    Processing,
    /// Waiting for the response to be written.
    Replying,
    /// Over.
    Done,
}

/// How an intake ended.
#[derive(Debug, Clone, Copy, PartialEq, Eq, Structural)]
pub enum IntakeOutcome {
    /// The response was written.
    Answered,
    /// The peer closed the stream before any byte of a frame had arrived.
    StreamClosed,
    /// The stream could not be read.
    ReadFailed,
    /// The stream ended inside the frame: inside its header or its payload.
    Truncated,
    /// The payload is no submission.
    Malformed,
    /// No account was on file for the connection.
    NoAccount,
    /// The submission collaborator failed.
    ProcessFailed,
    /// The response could not be serialized.
    EncodeFailed,
    /// The response is too long for a frame.
    TooLarge,
    /// The response could not be written.
    WriteFailed,
    /// An event arrived that the intake was not waiting for.
    OutOfOrder,
}

/// What the caller reports back to an intake.
pub enum IntakeEvent {
    /// Exactly the bytes asked for have arrived.
    Received(Vec<u8>),
    /// The stream ended before the bytes asked for had arrived, after this
    /// many of them.
    EndOfStream(usize),
    /// The read failed otherwise.
    ReceiveFailed,
    /// The submission collaborator returned its verdict.
    Processed(SubmissionResponse),
    /// The submission collaborator failed.
    ProcessFailed,
    /// The response was written and the stream closed.
    Sent,
    /// The response could not be written.
    SendFailed,
}

/// The mathematical value of an `IntakeEvent`.
pub enum IntakeEventView {
    Received(Seq<u8>),
    EndOfStream(usize),
    ReceiveFailed,
    Processed(SubmissionResponseView),
    ProcessFailed,
    Sent,
    SendFailed,
}

impl View for IntakeEvent {
    type V = IntakeEventView;

    open spec fn view(&self) -> IntakeEventView {
        match *self {
            IntakeEvent::Received(b) => IntakeEventView::Received(b@),
            IntakeEvent::EndOfStream(n) => IntakeEventView::EndOfStream(n),
            IntakeEvent::ReceiveFailed => IntakeEventView::ReceiveFailed,
            IntakeEvent::Processed(r) => IntakeEventView::Processed(r@),
            IntakeEvent::ProcessFailed => IntakeEventView::ProcessFailed,
            IntakeEvent::Sent => IntakeEventView::Sent,
            IntakeEvent::SendFailed => IntakeEventView::SendFailed,
        }
    }
}

/// What an intake asks of its caller.
pub enum IntakeAction {
    /// Read exactly `len` bytes from the stream.
    ReadExact { len: usize },
    /// Hand the submission and the account to the submission collaborator.
    Process { submission: Submission, account: AccountInformation },
    /// Write these bytes on the stream and close it.
    Reply { frame: Vec<u8> },
    /// The exchange is over.
    Finish { outcome: IntakeOutcome },
    /// The exchange was over already.
    Nothing,
}

/// The mathematical value of an `IntakeAction`.
pub enum IntakeActionView {
    ReadExact { len: usize },
    Process { submission: SubmissionView, account: AccountInformation },
    Reply { frame: Seq<u8> },
    Finish { outcome: IntakeOutcome },
    Nothing,
}

impl View for IntakeAction {
    type V = IntakeActionView;

    open spec fn view(&self) -> IntakeActionView {
        match *self {
            IntakeAction::ReadExact { len } => IntakeActionView::ReadExact { len },
            IntakeAction::Process { submission, account } => IntakeActionView::Process {
                submission: submission@,
                account,
            },
            IntakeAction::Reply { frame } => IntakeActionView::Reply { frame: frame@ },
            IntakeAction::Finish { outcome } => IntakeActionView::Finish { outcome },
            IntakeAction::Nothing => IntakeActionView::Nothing,
        }
    }
}

/// The state of one submission intake.
pub struct SubmissionIntake {
    step: IntakeStep,
    expected: u32,
    account: Option<AccountInformation>,
}

/// The mathematical value of a `SubmissionIntake`.
pub struct SubmissionIntakeView {
    pub step: IntakeStep,
    /// The payload length that the header announced.
    pub expected: nat,
    /// The account of the connection, if one is on file.
    pub account: Option<AccountInformation>,
}

impl View for SubmissionIntake {
    type V = SubmissionIntakeView;

    closed spec fn view(&self) -> SubmissionIntakeView {
        SubmissionIntakeView {
            step: self.step,
            expected: self.expected as nat,
            account: self.account,
        }
    }
}

/// An intake for a stream that has just been accepted.
pub open spec fn intake_initial(account: Option<AccountInformation>) -> SubmissionIntakeView {
    SubmissionIntakeView { step: IntakeStep::ReadingHeader, expected: 0, account }
}

/// The intake after it ended, and the action that says how.
pub open spec fn intake_finish(s: SubmissionIntakeView, outcome: IntakeOutcome) -> (
    SubmissionIntakeView,
    IntakeActionView,
) {
    (
        SubmissionIntakeView { step: IntakeStep::Done, ..s },
        IntakeActionView::Finish { outcome },
    )
}

/// The intake after the collaborator's response has been handed to the
/// serializer: it replies with the payload, framed, or ends if there is no
/// payload or the payload is too long for a frame.
pub open spec fn intake_encoded(s: SubmissionIntakeView, encoded: Result<Seq<u8>, CodecError>) -> (
    SubmissionIntakeView,
    IntakeActionView,
) {
    if !(s.step is Processing) {
        intake_finish(s, IntakeOutcome::OutOfOrder)
    } else {
        match encoded {
            Ok(payload) => if payload.len() <= u32::MAX {
                (
                    SubmissionIntakeView { step: IntakeStep::Replying, ..s },
                    IntakeActionView::Reply { frame: frame_wire(payload) },
                )
            } else {
                intake_finish(s, IntakeOutcome::TooLarge)
            },
            Err(_) => intake_finish(s, IntakeOutcome::EncodeFailed),
        }
    }
}

/// The transition function of an intake.
pub open spec fn intake_next(s: SubmissionIntakeView, e: IntakeEventView) -> (
    SubmissionIntakeView,
    IntakeActionView,
) {
    match s.step {
        IntakeStep::ReadingHeader => match e {
            IntakeEventView::Received(bytes) => if bytes.len() == 4 {
                (
                    SubmissionIntakeView {
                        step: IntakeStep::ReadingBody,
                        expected: be32_value(bytes),
                        account: s.account,
                    },
                    IntakeActionView::ReadExact { len: be32_value(bytes) as usize },
                )
            } else {
                intake_finish(s, IntakeOutcome::ReadFailed)
            },
            IntakeEventView::EndOfStream(arrived) => if arrived == 0 {
                intake_finish(s, IntakeOutcome::StreamClosed)
            } else {
                intake_finish(s, IntakeOutcome::Truncated)
            },
            IntakeEventView::ReceiveFailed => intake_finish(s, IntakeOutcome::ReadFailed),
            _ => intake_finish(s, IntakeOutcome::OutOfOrder),
        },
        IntakeStep::ReadingBody => match e {
            IntakeEventView::Received(bytes) => if bytes.len() != s.expected {
                intake_finish(s, IntakeOutcome::ReadFailed)
            } else {
                match submission_parse(bytes) {
                    Some(submission) => match s.account {
                        Some(account) => (
                            SubmissionIntakeView { step: IntakeStep::Processing, ..s },
                            IntakeActionView::Process { submission, account },
                        ),
                        None => intake_finish(s, IntakeOutcome::NoAccount),
                    },
                    None => intake_finish(s, IntakeOutcome::Malformed),
                }
            },
            IntakeEventView::EndOfStream(_) => intake_finish(s, IntakeOutcome::Truncated),
            IntakeEventView::ReceiveFailed => intake_finish(s, IntakeOutcome::ReadFailed),
            _ => intake_finish(s, IntakeOutcome::OutOfOrder),
        },
        IntakeStep::Processing => match e {
            IntakeEventView::Processed(response) => intake_encoded(
                s,
                Ok(response_wire(response)),
            ),
            IntakeEventView::ProcessFailed => intake_finish(s, IntakeOutcome::ProcessFailed),
            _ => intake_finish(s, IntakeOutcome::OutOfOrder),
        },
        IntakeStep::Replying => match e {
            IntakeEventView::Sent => intake_finish(s, IntakeOutcome::Answered),
            IntakeEventView::SendFailed => intake_finish(s, IntakeOutcome::WriteFailed),
            _ => intake_finish(s, IntakeOutcome::OutOfOrder),
        },
        IntakeStep::Done => (s, IntakeActionView::Nothing),
    }
}

impl SubmissionIntake {
    /// An intake for a stream that has just been accepted, and its first
    /// action: to read the frame header.
    pub fn start(account: Option<AccountInformation>) -> (r: (Self, IntakeAction))
        ensures
            r.0@ == intake_initial(account),
            r.1@ == (IntakeActionView::ReadExact { len: FRAME_HEADER_LEN }),
    {
        (
            SubmissionIntake { step: IntakeStep::ReadingHeader, expected: 0, account },
            IntakeAction::ReadExact { len: FRAME_HEADER_LEN },
        )
    }

    /// Where the intake stands.
    pub fn step(&self) -> (step: IntakeStep)
        ensures
            step == self@.step,
    {
        self.step
    }

    fn finish(&mut self, outcome: IntakeOutcome) -> (action: IntakeAction)
        ensures
            (final(self)@, action@) == intake_finish(old(self)@, outcome),
    {
        self.step = IntakeStep::Done;
        IntakeAction::Finish { outcome }
    }

    /// Takes what the serializer made of the collaborator's response and
    /// answers with the next action.
    pub fn on_encoded(&mut self, encoded: Result<Vec<u8>, CodecError>) -> (action: IntakeAction)
        ensures
            (final(self)@, action@) == intake_encoded(
                old(self)@,
                match encoded {
                    Ok(payload) => Ok(payload@),
                    Err(e) => Err(e),
                },
            ),
    {
        if self.step != IntakeStep::Processing {
            return self.finish(IntakeOutcome::OutOfOrder);
        }
        match encoded {
            Ok(payload) => match frame(payload.as_slice()) {
                Ok(bytes) => {
                    self.step = IntakeStep::Replying;
                    IntakeAction::Reply { frame: bytes }
                },
                Err(_) => self.finish(IntakeOutcome::TooLarge),
            },
            Err(_) => self.finish(IntakeOutcome::EncodeFailed),
        }
    }

    /// Takes an event and answers with the next action, as `intake_next`
    /// says.
    pub fn on_event(&mut self, event: IntakeEvent) -> (action: IntakeAction)
        ensures
            (final(self)@, action@) == intake_next(old(self)@, event@),
    {
        match self.step {
            IntakeStep::ReadingHeader => match event {
                IntakeEvent::Received(bytes) => {
                    if bytes.len() == 4 {
                        let header: [u8; 4] = [bytes[0], bytes[1], bytes[2], bytes[3]];
                        assert(header@ =~= bytes@);
                        let len = frame_length(&header);
                        self.step = IntakeStep::ReadingBody;
                        self.expected = len;
                        IntakeAction::ReadExact { len: len as usize }
                    } else {
                        self.finish(IntakeOutcome::ReadFailed)
                    }
                },
                IntakeEvent::EndOfStream(arrived) => {
                    if arrived == 0 {
                        self.finish(IntakeOutcome::StreamClosed)
                    } else {
                        self.finish(IntakeOutcome::Truncated)
                    }
                },
                IntakeEvent::ReceiveFailed => self.finish(IntakeOutcome::ReadFailed),
                _ => self.finish(IntakeOutcome::OutOfOrder),
            },
            IntakeStep::ReadingBody => match event {
                IntakeEvent::Received(bytes) => {
                    if bytes.len() != self.expected as usize {
                        self.finish(IntakeOutcome::ReadFailed)
                    } else {
                        match decode_submission(bytes.as_slice()) {
                            Ok(submission) => {
                                let account = match &self.account {
                                    Some(a) => Some(a.clone()),
                                    None => None,
                                };
                                match account {
                                    Some(account) => {
                                        self.step = IntakeStep::Processing;
                                        IntakeAction::Process { submission, account }
                                    },
                                    None => self.finish(IntakeOutcome::NoAccount),
                                }
                            },
                            Err(_) => self.finish(IntakeOutcome::Malformed),
                        }
                    }
                },
                IntakeEvent::EndOfStream(_) => self.finish(IntakeOutcome::Truncated),
                IntakeEvent::ReceiveFailed => self.finish(IntakeOutcome::ReadFailed),
                _ => self.finish(IntakeOutcome::OutOfOrder),
            },
            IntakeStep::Processing => match event {
                IntakeEvent::Processed(response) => {
                    let encoded = encode_response(&response);
                    self.on_encoded(encoded)
                },
                IntakeEvent::ProcessFailed => self.finish(IntakeOutcome::ProcessFailed),
                _ => self.finish(IntakeOutcome::OutOfOrder),
            },
            IntakeStep::Replying => match event {
                IntakeEvent::Sent => self.finish(IntakeOutcome::Answered),
                IntakeEvent::SendFailed => self.finish(IntakeOutcome::WriteFailed),
                _ => self.finish(IntakeOutcome::OutOfOrder),
            },
            IntakeStep::Done => IntakeAction::Nothing,
        }
    }
}

/// An intake asks the collaborator at most once and writes at most one
/// response, and only the response that the collaborator gave for the
/// submission that this stream carried.
pub proof fn theorem_intake_answers_its_own_submission(
    account: AccountInformation,
    header: Seq<u8>,
    body: Seq<u8>,
    response: SubmissionResponseView,
)
    requires
        header.len() == 4,
        be32_value(header) == body.len(),
        submission_parse(body) is Some,
        response_wire(response).len() <= u32::MAX,
    ensures
        ({
            let s0 = intake_initial(Some(account));
            let (s1, a1) = intake_next(s0, IntakeEventView::Received(header));
            let (s2, a2) = intake_next(s1, IntakeEventView::Received(body));
            let (s3, a3) = intake_next(s2, IntakeEventView::Processed(response));
            let (s4, a4) = intake_next(s3, IntakeEventView::Sent);
            &&& a1 == (IntakeActionView::ReadExact { len: body.len() as usize })
            &&& a2 == (IntakeActionView::Process {
                submission: submission_parse(body)->0,
                account,
            })
            &&& a3 == (IntakeActionView::Reply { frame: frame_wire(response_wire(response)) })
            &&& a4 == (IntakeActionView::Finish { outcome: IntakeOutcome::Answered })
            &&& s4.step is Done
        }),
{
    crate::codec::lemma_be32_value_bound(header);
}

/// An intake that has ended stays ended and asks for nothing more; and an
/// intake asks the collaborator only for a payload that is a submission,
/// on a connection with an account on file.
pub proof fn theorem_intake_is_one_shot(
    s: SubmissionIntakeView,
    e: IntakeEventView,
    after: SubmissionIntakeView,
    action: IntakeActionView,
)
    requires
        (after, action) == intake_next(s, e),
    ensures
        s.step is Done ==> after == s && action is Nothing,
        action is Finish ==> after.step is Done,
        action is Process ==> s.step is ReadingBody && s.account == Some(action->account) && e
            is Received && submission_parse(e->Received_0) == Some(action->submission),
        action is Reply ==> s.step is Processing && e is Processed && action->frame == frame_wire(
            response_wire(e->Processed_0),
        ),
        after.account == s.account,
{
}

/// A peer that closes its stream before it has sent anything ends the
/// exchange quietly. A stream that ends inside a frame, after part of the
/// header or part of the payload, is an error of that exchange; nothing is
/// handed to the collaborator for it.
pub proof fn theorem_intake_stream_ends(s: SubmissionIntakeView, arrived: usize)
    ensures
        s.step is ReadingHeader ==> intake_next(s, IntakeEventView::EndOfStream(0)).1 == (
        IntakeActionView::Finish { outcome: IntakeOutcome::StreamClosed }),
        s.step is ReadingHeader && arrived > 0 ==> intake_next(
            s,
            IntakeEventView::EndOfStream(arrived),
        ).1 == (IntakeActionView::Finish { outcome: IntakeOutcome::Truncated }),
        s.step is ReadingBody ==> intake_next(s, IntakeEventView::EndOfStream(arrived)).1 == (
        IntakeActionView::Finish { outcome: IntakeOutcome::Truncated }),
{
}

/// The intake after a run of events.
pub open spec fn intake_run(s: SubmissionIntakeView, events: Seq<IntakeEventView>)
    -> SubmissionIntakeView
    decreases events.len(),
{
    if events.len() == 0 {
        s
    } else {
        intake_run(intake_next(s, events[0]).0, events.drop_first())
    }
}

/// The intakes of one connection after an event for the intake at place
/// `i`. An event for a place that holds no intake changes nothing.
pub open spec fn intakes_next(pool: Seq<SubmissionIntakeView>, i: int, e: IntakeEventView) -> Seq<
    SubmissionIntakeView,
> {
    if 0 <= i < pool.len() {
        pool.update(i, intake_next(pool[i], e).0)
    } else {
        pool
    }
}

/// The intakes of one connection after a run of events, each marked with
/// the place of the intake whose stream it came from, in whatever order
/// they arrived.
pub open spec fn intakes_run(
    pool: Seq<SubmissionIntakeView>,
    arrivals: Seq<(int, IntakeEventView)>,
) -> Seq<SubmissionIntakeView>
    decreases arrivals.len(),
{
    if arrivals.len() == 0 {
        pool
    } else {
        intakes_run(intakes_next(pool, arrivals[0].0, arrivals[0].1), arrivals.drop_first())
    }
}

/// The events among `arrivals` that came from the stream of the intake at
/// place `i`, in the order in which they arrived.
pub open spec fn intake_events_of(arrivals: Seq<(int, IntakeEventView)>, i: int) -> Seq<
    IntakeEventView,
>
    decreases arrivals.len(),
{
    if arrivals.len() == 0 {
        Seq::empty()
    } else {
        let first = if arrivals[0].0 == i {
            seq![arrivals[0].1]
        } else {
            Seq::empty()
        };
        first + intake_events_of(arrivals.drop_first(), i)
    }
}

/// What happens on one submission stream touches no other. However the
/// events of the streams of one connection interleave, and however any of
/// them fails, each intake ends where it would have ended had its own
/// events arrived alone.
pub proof fn theorem_intakes_are_independent(
    pool: Seq<SubmissionIntakeView>,
    arrivals: Seq<(int, IntakeEventView)>,
    i: int,
)
    requires
        0 <= i < pool.len(),
    ensures
        intakes_run(pool, arrivals).len() == pool.len(),
        intakes_run(pool, arrivals)[i] == intake_run(pool[i], intake_events_of(arrivals, i)),
    decreases arrivals.len(),
{
    if arrivals.len() > 0 {
        let rest = arrivals.drop_first();
        let stepped = intakes_next(pool, arrivals[0].0, arrivals[0].1);
        theorem_intakes_are_independent(stepped, rest, i);
        if arrivals[0].0 == i {
            let own = seq![arrivals[0].1] + intake_events_of(rest, i);
            assert(own.drop_first() =~= intake_events_of(rest, i));
        } else {
            assert(intake_events_of(arrivals, i) =~= intake_events_of(rest, i));
        }
    }
}

} // verus!
