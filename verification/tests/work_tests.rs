use bytes::Bytes;
use quiver::codec::{encode_response, encode_submission, encode_template, frame};
use quiver::exchange::{
    ExchangeAction, ExchangeEvent, ExchangeOutcome, ExchangeStep, SubmissionExchange,
};
use quiver::intake::{IntakeAction, IntakeEvent, IntakeOutcome, IntakeStep, SubmissionIntake};
use quiver::push::{JobPusher, PushAction, PushEvent, PushStep, PushStop};
use quiver::receive::{JobReceiver, ReceiveAction, ReceiveEvent, ReceiveOutcome, ReceiveStep};
use quiver::types::{AccountInformation, Submission, SubmissionResponse, Target, Template};
use uuid::Uuid;

fn template(n: u8) -> Template {
    Template::new(
        Bytes::from(vec![n]),
        Bytes::from(vec![n; 10]),
        Bytes::from(vec![n; 4]),
        Bytes::from(vec![n; 4]),
        Bytes::from(vec![64u8]),
    )
}

fn submission(n: u8) -> Submission {
    Submission::new(
        Target::Pool,
        Bytes::from(vec![n; 8]),
        Bytes::from(vec![n; 40]),
        Bytes::from(vec![n; 100]),
    )
}

fn account() -> AccountInformation {
    AccountInformation { user_uuid: Uuid::from_u128(42) }
}

#[test]
fn pusher_opens_then_pulls_from_the_placeholder() {
    let (mut p, first) = JobPusher::start();
    assert!(matches!(first, PushAction::OpenStream));
    assert_eq!(p.step(), PushStep::Opening);
    match p.on_event(PushEvent::StreamOpened) {
        PushAction::Pull { current } => assert_eq!(current, Template::placeholder()),
        _ => panic!("expected a pull"),
    }
    assert_eq!(p.step(), PushStep::Pulling);
}

#[test]
fn pusher_sends_each_template_framed_and_pulls_its_successor() {
    let (mut p, _) = JobPusher::start();
    p.on_event(PushEvent::StreamOpened);
    for n in 1..4u8 {
        match p.on_event(PushEvent::Pulled(template(n))) {
            PushAction::Send { frame: bytes } => {
                let payload = encode_template(&template(n)).unwrap();
                assert_eq!(bytes, frame(&payload).unwrap());
            },
            _ => panic!("expected a send"),
        }
        assert_eq!(p.step(), PushStep::Sending);
        match p.on_event(PushEvent::Sent) {
            PushAction::Pull { current } => assert_eq!(current, template(n)),
            _ => panic!("expected a pull"),
        }
    }
}

#[test]
fn pusher_sends_the_placeholder_as_an_ordinary_frame() {
    let (mut p, _) = JobPusher::start();
    p.on_event(PushEvent::StreamOpened);
    match p.on_event(PushEvent::Pulled(Template::placeholder())) {
        PushAction::Send { frame: bytes } => {
            let mut expected = vec![0u8, 0, 0, 40];
            expected.extend_from_slice(&[0u8; 40]);
            assert_eq!(bytes, expected);
        },
        _ => panic!("expected a send"),
    }
}

#[test]
fn pusher_retries_a_failing_source_for_ever() {
    let (mut p, _) = JobPusher::start();
    p.on_event(PushEvent::StreamOpened);
    p.on_event(PushEvent::Pulled(template(1)));
    p.on_event(PushEvent::Sent);
    for _ in 0..1000 {
        match p.on_event(PushEvent::PullFailed) {
            PushAction::Pull { current } => assert_eq!(current, template(1)),
            _ => panic!("expected another pull"),
        }
        assert_eq!(p.step(), PushStep::Pulling);
    }
}

#[test]
fn pusher_stops_when_the_stream_fails() {
    let (mut p, _) = JobPusher::start();
    assert!(matches!(
        p.on_event(PushEvent::StreamFailed),
        PushAction::Stop { reason: PushStop::OpenFailed }
    ));
    assert!(matches!(p.on_event(PushEvent::StreamOpened), PushAction::Nothing));
    let (mut p, _) = JobPusher::start();
    p.on_event(PushEvent::StreamOpened);
    p.on_event(PushEvent::Pulled(template(1)));
    assert!(matches!(
        p.on_event(PushEvent::SendFailed),
        PushAction::Stop { reason: PushStop::WriteFailed }
    ));
    assert_eq!(p.step(), PushStep::Stopped);
}

#[test]
fn pusher_stops_on_an_event_out_of_order() {
    let (mut p, _) = JobPusher::start();
    assert!(matches!(
        p.on_event(PushEvent::Sent),
        PushAction::Stop { reason: PushStop::OutOfOrder }
    ));
}

#[test]
fn intake_answers_one_submission() {
    let (mut i, first) = SubmissionIntake::start(Some(account()));
    assert!(matches!(first, IntakeAction::ReadExact { len: 4 }));
    let payload = encode_submission(&submission(3)).unwrap();
    let framed = frame(&payload).unwrap();
    match i.on_event(IntakeEvent::Received(framed[..4].to_vec())) {
        IntakeAction::ReadExact { len } => assert_eq!(len, payload.len()),
        _ => panic!("expected a read of the payload"),
    }
    assert_eq!(i.step(), IntakeStep::ReadingBody);
    match i.on_event(IntakeEvent::Received(framed[4..].to_vec())) {
        IntakeAction::Process { submission: s, account: a } => {
            assert_eq!(s, submission(3));
            assert_eq!(a.user_uuid, Uuid::from_u128(42));
        },
        _ => panic!("expected the submission to be processed"),
    }
    let response = SubmissionResponse::new(true, Bytes::from(vec![3u8; 40]), "ok".to_string());
    match i.on_event(IntakeEvent::Processed(response.clone())) {
        IntakeAction::Reply { frame: bytes } => {
            assert_eq!(bytes, frame(&encode_response(&response).unwrap()).unwrap())
        },
        _ => panic!("expected a reply"),
    }
    assert!(matches!(
        i.on_event(IntakeEvent::Sent),
        IntakeAction::Finish { outcome: IntakeOutcome::Answered }
    ));
    assert_eq!(i.step(), IntakeStep::Done);
    assert!(matches!(i.on_event(IntakeEvent::Sent), IntakeAction::Nothing));
}

#[test]
fn intake_ends_quietly_when_the_peer_closes_before_a_header() {
    let (mut i, _) = SubmissionIntake::start(Some(account()));
    assert!(matches!(
        i.on_event(IntakeEvent::EndOfStream(0)),
        IntakeAction::Finish { outcome: IntakeOutcome::StreamClosed }
    ));
}

#[test]
fn intake_reports_each_failure() {
    let (mut i, _) = SubmissionIntake::start(Some(account()));
    assert!(matches!(
        i.on_event(IntakeEvent::ReceiveFailed),
        IntakeAction::Finish { outcome: IntakeOutcome::ReadFailed }
    ));
    let (mut i, _) = SubmissionIntake::start(Some(account()));
    assert!(matches!(
        i.on_event(IntakeEvent::Received(vec![0, 0, 0])),
        IntakeAction::Finish { outcome: IntakeOutcome::ReadFailed }
    ));
    let (mut i, _) = SubmissionIntake::start(Some(account()));
    i.on_event(IntakeEvent::Received(vec![0, 0, 0, 9]));
    assert!(matches!(
        i.on_event(IntakeEvent::EndOfStream(4)),
        IntakeAction::Finish { outcome: IntakeOutcome::Truncated }
    ));
    let (mut i, _) = SubmissionIntake::start(Some(account()));
    i.on_event(IntakeEvent::Received(vec![0, 0, 0, 9]));
    assert!(matches!(
        i.on_event(IntakeEvent::Received(vec![0; 8])),
        IntakeAction::Finish { outcome: IntakeOutcome::ReadFailed }
    ));
    let (mut i, _) = SubmissionIntake::start(Some(account()));
    i.on_event(IntakeEvent::Received(vec![0, 0, 0, 9]));
    assert!(matches!(
        i.on_event(IntakeEvent::Received(vec![0; 9])),
        IntakeAction::Finish { outcome: IntakeOutcome::Malformed }
    ));
    let (mut i, _) = SubmissionIntake::start(Some(account()));
    assert!(matches!(
        i.on_event(IntakeEvent::Sent),
        IntakeAction::Finish { outcome: IntakeOutcome::OutOfOrder }
    ));
}

#[test]
fn intake_rejects_an_empty_frame() {
    let (mut i, _) = SubmissionIntake::start(Some(account()));
    assert!(matches!(
        i.on_event(IntakeEvent::Received(vec![0, 0, 0, 0])),
        IntakeAction::ReadExact { len: 0 }
    ));
    assert!(matches!(
        i.on_event(IntakeEvent::Received(vec![])),
        IntakeAction::Finish { outcome: IntakeOutcome::Malformed }
    ));
}

#[test]
fn intake_without_an_account_refuses_the_submission() {
    let (mut i, _) = SubmissionIntake::start(None);
    let payload = encode_submission(&submission(1)).unwrap();
    let framed = frame(&payload).unwrap();
    i.on_event(IntakeEvent::Received(framed[..4].to_vec()));
    assert!(matches!(
        i.on_event(IntakeEvent::Received(framed[4..].to_vec())),
        IntakeAction::Finish { outcome: IntakeOutcome::NoAccount }
    ));
}

#[test]
fn intake_reports_collaborator_and_write_failures() {
    let start = || {
        let (mut i, _) = SubmissionIntake::start(Some(account()));
        let framed = frame(&encode_submission(&submission(1)).unwrap()).unwrap();
        i.on_event(IntakeEvent::Received(framed[..4].to_vec()));
        i.on_event(IntakeEvent::Received(framed[4..].to_vec()));
        i
    };
    let mut i = start();
    assert!(matches!(
        i.on_event(IntakeEvent::ProcessFailed),
        IntakeAction::Finish { outcome: IntakeOutcome::ProcessFailed }
    ));
    let mut i = start();
    i.on_event(IntakeEvent::Processed(SubmissionResponse::new(false, Bytes::new(), String::new())));
    assert!(matches!(
        i.on_event(IntakeEvent::SendFailed),
        IntakeAction::Finish { outcome: IntakeOutcome::WriteFailed }
    ));
}

#[test]
fn receiver_delivers_each_frame_in_order() {
    let (mut r, first) = JobReceiver::start();
    assert!(matches!(first, ReceiveAction::AcceptStream));
    assert!(matches!(r.on_event(ReceiveEvent::StreamOpened), ReceiveAction::ReadExact { len: 4 }));
    for t in [Template::placeholder(), template(1), template(2)] {
        let payload = encode_template(&t).unwrap();
        let framed = frame(&payload).unwrap();
        match r.on_event(ReceiveEvent::Received(framed[..4].to_vec())) {
            ReceiveAction::ReadExact { len } => assert_eq!(len, payload.len()),
            _ => panic!("expected a read of the payload"),
        }
        match r.on_event(ReceiveEvent::Received(framed[4..].to_vec())) {
            ReceiveAction::Deliver { template: got } => assert_eq!(got, t),
            _ => panic!("expected a delivery"),
        }
        assert_eq!(r.step(), ReceiveStep::Delivering);
        assert!(matches!(r.on_event(ReceiveEvent::Delivered), ReceiveAction::ReadExact { len: 4 }));
    }
}

#[test]
fn receiver_ends_cleanly_between_frames() {
    let (mut r, _) = JobReceiver::start();
    r.on_event(ReceiveEvent::StreamOpened);
    match r.on_event(ReceiveEvent::EndOfStream(0)) {
        ReceiveAction::Stop { outcome } => {
            assert_eq!(outcome, ReceiveOutcome::StreamEnded);
            assert!(outcome.is_clean());
        },
        _ => panic!("expected the loop to stop"),
    }
    assert_eq!(r.step(), ReceiveStep::Done);
    assert!(matches!(r.on_event(ReceiveEvent::StreamOpened), ReceiveAction::Nothing));
}

#[test]
fn receiver_reports_each_failure() {
    let (mut r, _) = JobReceiver::start();
    assert!(matches!(
        r.on_event(ReceiveEvent::StreamFailed),
        ReceiveAction::Stop { outcome: ReceiveOutcome::AcceptFailed }
    ));
    let (mut r, _) = JobReceiver::start();
    r.on_event(ReceiveEvent::StreamOpened);
    assert!(matches!(
        r.on_event(ReceiveEvent::ReceiveFailed),
        ReceiveAction::Stop { outcome: ReceiveOutcome::ReadFailed }
    ));
    let (mut r, _) = JobReceiver::start();
    r.on_event(ReceiveEvent::StreamOpened);
    r.on_event(ReceiveEvent::Received(vec![0, 0, 0, 40]));
    match r.on_event(ReceiveEvent::EndOfStream(17)) {
        ReceiveAction::Stop { outcome } => {
            assert_eq!(outcome, ReceiveOutcome::Truncated);
            assert!(!outcome.is_clean());
        },
        _ => panic!("expected the loop to stop"),
    }
    let (mut r, _) = JobReceiver::start();
    r.on_event(ReceiveEvent::StreamOpened);
    r.on_event(ReceiveEvent::Received(vec![0, 0, 0, 3]));
    assert!(matches!(
        r.on_event(ReceiveEvent::Received(vec![1, 2, 3])),
        ReceiveAction::Stop { outcome: ReceiveOutcome::Malformed }
    ));
    let (mut r, _) = JobReceiver::start();
    r.on_event(ReceiveEvent::StreamOpened);
    r.on_event(ReceiveEvent::Received(vec![0, 0, 0, 40]));
    r.on_event(ReceiveEvent::Received(vec![0; 40]));
    assert!(matches!(
        r.on_event(ReceiveEvent::DeliverFailed),
        ReceiveAction::Stop { outcome: ReceiveOutcome::SinkFailed }
    ));
    let (mut r, _) = JobReceiver::start();
    assert!(matches!(
        r.on_event(ReceiveEvent::Delivered),
        ReceiveAction::Stop { outcome: ReceiveOutcome::OutOfOrder }
    ));
}

#[test]
fn receiver_rejects_an_empty_frame() {
    let (mut r, _) = JobReceiver::start();
    r.on_event(ReceiveEvent::StreamOpened);
    assert!(matches!(
        r.on_event(ReceiveEvent::Received(vec![0, 0, 0, 0])),
        ReceiveAction::ReadExact { len: 0 }
    ));
    assert!(matches!(
        r.on_event(ReceiveEvent::Received(vec![])),
        ReceiveAction::Stop { outcome: ReceiveOutcome::Malformed }
    ));
}

#[test]
fn exchange_sends_its_submission_and_hands_over_the_response() {
    let (mut x, first) = SubmissionExchange::start(submission(5));
    assert!(matches!(first, ExchangeAction::OpenStream));
    assert_eq!(x.step(), ExchangeStep::Opening);
    match x.on_event(ExchangeEvent::StreamOpened) {
        ExchangeAction::Send { frame: bytes } => {
            assert_eq!(bytes, frame(&encode_submission(&submission(5)).unwrap()).unwrap())
        },
        _ => panic!("expected a send"),
    }
    assert!(matches!(x.on_event(ExchangeEvent::Sent), ExchangeAction::ReadExact { len: 4 }));
    let response = SubmissionResponse::new(true, Bytes::from(vec![5u8; 40]), "good".to_string());
    let payload = encode_response(&response).unwrap();
    let framed = frame(&payload).unwrap();
    match x.on_event(ExchangeEvent::Received(framed[..4].to_vec())) {
        ExchangeAction::ReadExact { len } => assert_eq!(len, payload.len()),
        _ => panic!("expected a read of the payload"),
    }
    match x.on_event(ExchangeEvent::Received(framed[4..].to_vec())) {
        ExchangeAction::Handle { response: got } => assert_eq!(got, response),
        _ => panic!("expected the response to be handled"),
    }
    match x.on_event(ExchangeEvent::Handled) {
        ExchangeAction::Finish { outcome } => {
            assert_eq!(outcome, ExchangeOutcome::Completed);
            assert!(outcome.benign());
            assert!(!outcome.transport_failure());
        },
        _ => panic!("expected the exchange to finish"),
    }
    assert!(matches!(x.on_event(ExchangeEvent::Handled), ExchangeAction::Nothing));
}

#[test]
fn exchange_treats_a_close_before_the_response_as_benign() {
    let (mut x, _) = SubmissionExchange::start(submission(1));
    x.on_event(ExchangeEvent::StreamOpened);
    x.on_event(ExchangeEvent::Sent);
    match x.on_event(ExchangeEvent::EndOfStream(0)) {
        ExchangeAction::Finish { outcome } => {
            assert_eq!(outcome, ExchangeOutcome::StreamClosed);
            assert!(outcome.benign());
        },
        _ => panic!("expected the exchange to finish"),
    }
}

#[test]
fn exchange_reports_each_failure() {
    let (mut x, _) = SubmissionExchange::start(submission(1));
    match x.on_event(ExchangeEvent::StreamFailed) {
        ExchangeAction::Finish { outcome } => {
            assert_eq!(outcome, ExchangeOutcome::OpenFailed);
            assert!(outcome.transport_failure());
            assert!(!outcome.benign());
        },
        _ => panic!("expected the exchange to finish"),
    }
    let (mut x, _) = SubmissionExchange::start(submission(1));
    x.on_event(ExchangeEvent::StreamOpened);
    assert!(matches!(
        x.on_event(ExchangeEvent::SendFailed),
        ExchangeAction::Finish { outcome: ExchangeOutcome::WriteFailed }
    ));
    let sent = || {
        let (mut x, _) = SubmissionExchange::start(submission(1));
        x.on_event(ExchangeEvent::StreamOpened);
        x.on_event(ExchangeEvent::Sent);
        x
    };
    let mut x = sent();
    assert!(matches!(
        x.on_event(ExchangeEvent::ReceiveFailed),
        ExchangeAction::Finish { outcome: ExchangeOutcome::ReadFailed }
    ));
    let mut x = sent();
    x.on_event(ExchangeEvent::Received(vec![0, 0, 0, 5]));
    match x.on_event(ExchangeEvent::EndOfStream(0)) {
        ExchangeAction::Finish { outcome } => {
            assert_eq!(outcome, ExchangeOutcome::Truncated);
            assert!(!outcome.benign());
            assert!(!outcome.transport_failure());
        },
        _ => panic!("expected the exchange to finish"),
    }
    let mut x = sent();
    x.on_event(ExchangeEvent::Received(vec![0, 0, 0, 2]));
    assert!(matches!(
        x.on_event(ExchangeEvent::Received(vec![7, 7])),
        ExchangeAction::Finish { outcome: ExchangeOutcome::Malformed }
    ));
    let mut x = sent();
    x.on_event(ExchangeEvent::Received(vec![0, 0, 0, 17]));
    x.on_event(ExchangeEvent::Received(vec![0; 17]));
    assert!(matches!(
        x.on_event(ExchangeEvent::HandleFailed),
        ExchangeAction::Finish { outcome: ExchangeOutcome::HandlerFailed }
    ));
    let (mut x, _) = SubmissionExchange::start(submission(1));
    assert!(matches!(
        x.on_event(ExchangeEvent::Handled),
        ExchangeAction::Finish { outcome: ExchangeOutcome::OutOfOrder }
    ));
}

#[test]
fn concurrent_exchanges_keep_their_own_responses() {
    let n = 8u8;
    let mut exchanges: Vec<SubmissionExchange> = Vec::new();
    for k in 0..n {
        let (mut x, _) = SubmissionExchange::start(submission(k));
        x.on_event(ExchangeEvent::StreamOpened);
        x.on_event(ExchangeEvent::Sent);
        exchanges.push(x);
    }
    let response = |k: u8| SubmissionResponse::new(k % 2 == 0, Bytes::from(vec![k; 40]), format!("r{}", k));
    let order = [5usize, 0, 7, 2, 1, 6, 3, 4];
    for &k in &order {
        let framed = frame(&encode_response(&response(k as u8)).unwrap()).unwrap();
        exchanges[k].on_event(ExchangeEvent::Received(framed[..4].to_vec()));
    }
    let mut handled = 0;
    for &k in order.iter().rev() {
        let framed = frame(&encode_response(&response(k as u8)).unwrap()).unwrap();
        match exchanges[k].on_event(ExchangeEvent::Received(framed[4..].to_vec())) {
            ExchangeAction::Handle { response: got } => {
                assert_eq!(got, response(k as u8));
                handled += 1;
            },
            _ => panic!("expected the response to be handled"),
        }
    }
    assert_eq!(handled, 8);
    for x in exchanges.iter_mut() {
        assert!(matches!(
            x.on_event(ExchangeEvent::Handled),
            ExchangeAction::Finish { outcome: ExchangeOutcome::Completed }
        ));
        assert!(matches!(x.on_event(ExchangeEvent::Handled), ExchangeAction::Nothing));
    }
}

#[test]
fn pusher_sends_whatever_payload_the_serializer_gave() {
    let (mut p, _) = JobPusher::start();
    p.on_event(PushEvent::StreamOpened);
    match p.on_encoded(template(1), Ok(vec![9, 9])) {
        PushAction::Send { frame: bytes } => assert_eq!(bytes, vec![0, 0, 0, 2, 9, 9]),
        _ => panic!("expected a send"),
    }
    match p.on_event(PushEvent::Sent) {
        PushAction::Pull { current } => assert_eq!(current, template(1)),
        _ => panic!("expected a pull"),
    }
}

#[test]
fn pusher_stops_when_the_serializer_refuses() {
    let (mut p, _) = JobPusher::start();
    p.on_event(PushEvent::StreamOpened);
    assert!(matches!(
        p.on_encoded(template(1), Err(quiver::codec::CodecError::Encode)),
        PushAction::Stop { reason: PushStop::EncodeFailed }
    ));
    assert_eq!(p.step(), PushStep::Stopped);
    let (mut p, _) = JobPusher::start();
    assert!(matches!(
        p.on_encoded(template(1), Ok(vec![])),
        PushAction::Stop { reason: PushStop::OutOfOrder }
    ));
}

#[test]
fn intake_ends_when_the_serializer_refuses() {
    let (mut i, _) = SubmissionIntake::start(Some(account()));
    let framed = frame(&encode_submission(&submission(1)).unwrap()).unwrap();
    i.on_event(IntakeEvent::Received(framed[..4].to_vec()));
    i.on_event(IntakeEvent::Received(framed[4..].to_vec()));
    assert!(matches!(
        i.on_encoded(Err(quiver::codec::CodecError::Encode)),
        IntakeAction::Finish { outcome: IntakeOutcome::EncodeFailed }
    ));
    let (mut i, _) = SubmissionIntake::start(Some(account()));
    assert!(matches!(
        i.on_encoded(Ok(vec![1])),
        IntakeAction::Finish { outcome: IntakeOutcome::OutOfOrder }
    ));
}

#[test]
fn exchange_ends_when_the_serializer_refuses() {
    let (mut x, _) = SubmissionExchange::start(submission(1));
    assert!(matches!(
        x.on_encoded(Err(quiver::codec::CodecError::Encode)),
        ExchangeAction::Finish { outcome: ExchangeOutcome::EncodeFailed }
    ));
    let (mut x, _) = SubmissionExchange::start(submission(1));
    match x.on_encoded(Ok(vec![7])) {
        ExchangeAction::Send { frame: bytes } => assert_eq!(bytes, vec![0, 0, 0, 1, 7]),
        _ => panic!("expected a send"),
    }
    assert!(matches!(
        x.on_encoded(Ok(vec![7])),
        ExchangeAction::Finish { outcome: ExchangeOutcome::OutOfOrder }
    ));
}

#[test]
fn receiver_takes_an_end_inside_a_header_for_an_error() {
    for arrived in 1..4usize {
        let (mut r, _) = JobReceiver::start();
        r.on_event(ReceiveEvent::StreamOpened);
        match r.on_event(ReceiveEvent::EndOfStream(arrived)) {
            ReceiveAction::Stop { outcome } => {
                assert_eq!(outcome, ReceiveOutcome::Truncated);
                assert!(!outcome.is_clean());
            },
            _ => panic!("expected the loop to stop"),
        }
        assert_eq!(r.step(), ReceiveStep::Done);
    }
}

#[test]
fn receiver_takes_an_end_inside_a_later_header_for_an_error() {
    let (mut r, _) = JobReceiver::start();
    r.on_event(ReceiveEvent::StreamOpened);
    for t in [template(1), template(2)] {
        let framed = frame(&encode_template(&t).unwrap()).unwrap();
        r.on_event(ReceiveEvent::Received(framed[..4].to_vec()));
        r.on_event(ReceiveEvent::Received(framed[4..].to_vec()));
        r.on_event(ReceiveEvent::Delivered);
    }
    assert!(matches!(
        r.on_event(ReceiveEvent::EndOfStream(2)),
        ReceiveAction::Stop { outcome: ReceiveOutcome::Truncated }
    ));
}

#[test]
fn receiver_takes_an_end_anywhere_in_a_payload_for_an_error() {
    for arrived in [0usize, 1, 39] {
        let (mut r, _) = JobReceiver::start();
        r.on_event(ReceiveEvent::StreamOpened);
        r.on_event(ReceiveEvent::Received(vec![0, 0, 0, 40]));
        assert!(matches!(
            r.on_event(ReceiveEvent::EndOfStream(arrived)),
            ReceiveAction::Stop { outcome: ReceiveOutcome::Truncated }
        ));
    }
}

#[test]
fn intake_takes_an_end_inside_a_header_for_an_error() {
    for arrived in 1..4usize {
        let (mut i, _) = SubmissionIntake::start(Some(account()));
        assert!(matches!(
            i.on_event(IntakeEvent::EndOfStream(arrived)),
            IntakeAction::Finish { outcome: IntakeOutcome::Truncated }
        ));
        assert_eq!(i.step(), IntakeStep::Done);
    }
}

#[test]
fn exchange_takes_an_end_inside_a_header_for_an_error() {
    for arrived in 1..4usize {
        let (mut x, _) = SubmissionExchange::start(submission(1));
        x.on_event(ExchangeEvent::StreamOpened);
        x.on_event(ExchangeEvent::Sent);
        match x.on_event(ExchangeEvent::EndOfStream(arrived)) {
            ExchangeAction::Finish { outcome } => {
                assert_eq!(outcome, ExchangeOutcome::Truncated);
                assert!(!outcome.benign());
            },
            _ => panic!("expected the exchange to finish"),
        }
    }
}
