use actix_http::ws::ProtocolError;
use splinter_ws::{
    ConnectionStatus, Ending, Exchange, Frame, Message, Origin, ParseBytes, ParseError, SinkOp, Stage,
    WebSocketError, WsResponse,
};

type Bytes = Vec<u8>;

fn close(stage: Stage<Bytes>, outcomes: Vec<Result<(), ProtocolError>>) -> Stage<Bytes> {
    let mut stage = stage;
    for outcome in outcomes {
        stage = match stage {
            Stage::Perform(_, exchange) => exchange.resume(outcome),
            other => panic!("no operation is asked for in {:?}", other),
        };
    }
    stage
}

fn parse_error() -> ParseError {
    ParseError::MalformedMessage("not a number".to_string())
}

#[test]
fn bytes_parse_as_they_stand() {
    let parsed = <Bytes as ParseBytes<Bytes>>::from_bytes(&[1, 2, 3]);
    assert!(matches!(parsed, Ok(bytes) if bytes == vec![1, 2, 3]));
    let parsed = <Bytes as ParseBytes<Bytes>>::from_bytes(&[]);
    assert!(matches!(parsed, Ok(bytes) if bytes.is_empty()));
}

#[test]
fn missing_payload_has_no_bytes() {
    assert_eq!(splinter_ws::session::into_bytes(None), Vec::<u8>::new());
    assert_eq!(splinter_ws::session::into_bytes(Some(vec![4, 5])), vec![4, 5]);
}

#[test]
fn empty_opening_waits_for_a_frame() {
    assert!(matches!(Stage::<Bytes>::opened(WsResponse::Empty), Stage::NextFrame));
}

fn failed_opening() -> WebSocketError {
    let stage = Stage::<Bytes>::opened(WsResponse::Text("hi".to_string()));
    assert!(matches!(
        &stage,
        Stage::Perform(SinkOp::Send(Message::Text(text)), Exchange::Opening(_)) if text == "hi"
    ));
    match close(stage, vec![Err(ProtocolError::Overflow), Ok(()), Ok(()), Ok(())]) {
        Stage::Recover(Origin::Opening, error) => error,
        other => panic!("{:?}", other),
    }
}

#[test]
fn failed_opening_is_recovered_from_and_reported() {
    let error = failed_opening();
    assert!(matches!(&error, WebSocketError::ProtocolError(ProtocolError::Overflow)));
    assert!(matches!(
        Stage::<Bytes>::recovered(Origin::Opening, error, Ok(())),
        Stage::Finish(Ending {
            report: Some(Err(WebSocketError::ProtocolError(ProtocolError::Overflow))),
            outcome: Ok(()),
        })
    ));
}

#[test]
fn failed_recovery_from_the_opening_is_reported_with_its_cause() {
    let failure = WebSocketError::RequestBuilderError("no reactor".to_string());
    match Stage::<Bytes>::recovered(Origin::Opening, failed_opening(), Err(failure)) {
        Stage::Finish(Ending {
            report: Some(Err(WebSocketError::OnFailError { original_error, on_fail_error })),
            outcome: Ok(()),
        }) => {
            assert!(matches!(*original_error, WebSocketError::ProtocolError(ProtocolError::Overflow)));
            assert!(matches!(*on_fail_error, WebSocketError::RequestBuilderError(text) if text == "no reactor"));
        }
        other => panic!("{:?}", other),
    }
}

#[test]
fn opening_that_succeeds_waits_for_a_frame() {
    let stage = Stage::<Bytes>::opened(WsResponse::Text("hi".to_string()));
    assert!(matches!(close(stage, vec![Ok(()), Ok(())]), Stage::NextFrame));
    let stage = Stage::<Bytes>::opened(WsResponse::Close);
    assert!(matches!(close(stage, vec![Ok(()), Ok(()), Ok(())]), Stage::NextFrame));
}

#[test]
fn text_and_binary_frames_are_parsed() {
    let stage = Stage::<Bytes>::received(Ok(Some(Frame::Text(Some(vec![9])))));
    assert!(matches!(stage, Stage::Parse(Some(payload)) if payload == vec![9]));
    let stage = Stage::<Bytes>::received(Ok(Some(Frame::Binary(None))));
    assert!(matches!(stage, Stage::Parse(None)));
}

#[test]
fn parsed_message_is_delivered() {
    let stage = Stage::<Bytes>::parsed(Ok(vec![9]));
    assert!(matches!(stage, Stage::Deliver(message) if message == vec![9]));
}

#[test]
fn malformed_message_closes_unexpectedly() {
    let stage = Stage::<Bytes>::parsed(Err(parse_error()));
    let stage = close(stage, vec![Ok(()), Ok(()), Ok(())]);
    match stage {
        Stage::Check(ConnectionStatus::UnexpectedClose(WebSocketError::ParserError {
            parse_error: ParseError::MalformedMessage(text),
            shutdown_error: None,
        })) => assert_eq!(text, "not a number"),
        other => panic!("{:?}", other),
    }
    let stage = Stage::<Bytes>::parsed(Err(parse_error()));
    let stage = close(stage, vec![Err(ProtocolError::Overflow), Err(ProtocolError::BadOpCode)]);
    assert!(matches!(
        stage,
        Stage::Check(ConnectionStatus::UnexpectedClose(WebSocketError::ParserError {
            shutdown_error: Some(ProtocolError::BadOpCode),
            ..
        }))
    ));
}

#[test]
fn ping_is_answered_with_its_text() {
    let stage = Stage::<Bytes>::received(Ok(Some(Frame::Ping("beat".to_string()))));
    assert!(matches!(
        &stage,
        Stage::Perform(SinkOp::Send(Message::Pong(text)), Exchange::Replying(_)) if text == "beat"
    ));
    assert!(matches!(close(stage, vec![Ok(())]), Stage::Check(ConnectionStatus::Open)));
}

#[test]
fn unanswered_ping_closes_unexpectedly() {
    let stage = Stage::<Bytes>::received(Ok(Some(Frame::Ping("beat".to_string()))));
    let stage = close(stage, vec![Err(ProtocolError::Overflow), Ok(()), Ok(()), Ok(())]);
    assert!(matches!(
        stage,
        Stage::Check(ConnectionStatus::UnexpectedClose(WebSocketError::ProtocolError(
            ProtocolError::Overflow
        )))
    ));
}

#[test]
fn pong_changes_nothing() {
    let stage = Stage::<Bytes>::received(Ok(Some(Frame::Pong("beat".to_string()))));
    assert!(matches!(stage, Stage::Check(ConnectionStatus::Open)));
    assert!(matches!(Stage::<Bytes>::checked(true, ConnectionStatus::Open), Stage::NextFrame));
}

#[test]
fn close_frame_is_answered_and_reported() {
    for running in [true, false] {
        let stage = Stage::<Bytes>::received(Ok(Some(Frame::Close)));
        let stage = close(stage, vec![Ok(()), Ok(()), Ok(())]);
        let stage = match stage {
            Stage::Check(status) => Stage::<Bytes>::checked(running, status),
            other => panic!("{:?}", other),
        };
        assert!(matches!(stage, Stage::Finish(Ending { report: Some(Ok(())), outcome: Ok(()) })));
    }
}

#[test]
fn failed_close_is_reported() {
    let stage = Stage::<Bytes>::received(Ok(Some(Frame::Close)));
    let stage = close(stage, vec![Err(ProtocolError::Overflow), Err(ProtocolError::BadOpCode)]);
    assert!(matches!(
        stage,
        Stage::Check(ConnectionStatus::Close(Err(WebSocketError::ProtocolError(
            ProtocolError::BadOpCode
        ))))
    ));
}

#[test]
fn cleared_flag_closes_and_reports() {
    let stage = Stage::<Bytes>::checked(false, ConnectionStatus::Open);
    assert!(matches!(&stage, Stage::Perform(SinkOp::Send(Message::Close(Some(_))), Exchange::Stopping(_))));
    let stage = close(stage, vec![Ok(()), Ok(()), Ok(())]);
    assert!(matches!(stage, Stage::Finish(Ending { report: Some(Ok(())), outcome: Ok(()) })));
    let stage = Stage::<Bytes>::checked(false, ConnectionStatus::Open);
    let stage = close(stage, vec![Err(ProtocolError::Overflow), Err(ProtocolError::BadOpCode)]);
    assert!(matches!(
        stage,
        Stage::Finish(Ending {
            report: Some(Err(WebSocketError::ProtocolError(ProtocolError::BadOpCode))),
            outcome: Ok(()),
        })
    ));
}

#[test]
fn unexpected_close_is_recovered_from() {
    for running in [true, false] {
        let error = WebSocketError::ProtocolError(ProtocolError::Overflow);
        let stage = Stage::<Bytes>::checked(running, ConnectionStatus::UnexpectedClose(error));
        let error = match stage {
            Stage::Recover(Origin::Frame, error) => error,
            other => panic!("{:?}", other),
        };
        assert!(matches!(
            Stage::<Bytes>::recovered(Origin::Frame, error, Ok(())),
            Stage::Finish(Ending { report: Some(Ok(())), outcome: Ok(()) })
        ));
    }
}

#[test]
fn failed_recovery_is_reported_with_its_cause() {
    let stage = Stage::<Bytes>::recovered(
        Origin::Frame,
        WebSocketError::ProtocolError(ProtocolError::Overflow),
        Err(WebSocketError::RequestBuilderError("no reactor".to_string())),
    );
    match stage {
        Stage::Finish(Ending {
            report: Some(Err(WebSocketError::OnFailError { original_error, on_fail_error })),
            outcome: Ok(()),
        }) => {
            assert!(matches!(*original_error, WebSocketError::ProtocolError(ProtocolError::Overflow)));
            assert!(matches!(*on_fail_error, WebSocketError::RequestBuilderError(text) if text == "no reactor"));
        }
        other => panic!("{:?}", other),
    }
}

#[test]
fn end_of_frames_is_silent() {
    assert!(matches!(
        Stage::<Bytes>::received(Ok(None)),
        Stage::Finish(Ending { report: None, outcome: Ok(()) })
    ));
}

#[test]
fn stream_error_is_recovered_from_and_ends_silently() {
    for fails in [false, true] {
        let error = match Stage::<Bytes>::received(Err(ProtocolError::MaskedFrame)) {
            Stage::Recover(Origin::Stream, error) => error,
            other => panic!("{:?}", other),
        };
        assert!(matches!(&error, WebSocketError::ProtocolError(ProtocolError::MaskedFrame)));
        let result = if fails {
            Err(WebSocketError::RequestBuilderError("no reactor".to_string()))
        } else {
            Ok(())
        };
        match Stage::<Bytes>::recovered(Origin::Stream, error, result) {
            Stage::Finish(Ending {
                report: None,
                outcome: Err(WebSocketError::ProtocolError(ProtocolError::MaskedFrame)),
            }) => assert!(!fails),
            Stage::Finish(Ending {
                report: None,
                outcome: Err(WebSocketError::OnFailError { original_error, on_fail_error }),
            }) => {
                assert!(fails);
                assert!(matches!(*original_error, WebSocketError::ProtocolError(ProtocolError::MaskedFrame)));
                assert!(matches!(*on_fail_error, WebSocketError::RequestBuilderError(text) if text == "no reactor"));
            }
            other => panic!("{:?}", other),
        }
    }
}

fn outcomes(bits: u8) -> Vec<Result<(), ProtocolError>> {
    (0..4)
        .map(|i| if bits & (1 << i) == 0 { Ok(()) } else { Err(ProtocolError::InvalidLength(i)) })
        .collect()
}

#[test]
fn stopping_never_waits_for_a_frame() {
    for bits in 0..16u8 {
        let mut stage = Stage::<Bytes>::checked(false, ConnectionStatus::Open);
        for outcome in outcomes(bits) {
            stage = match stage {
                Stage::Perform(_, exchange) => exchange.resume(outcome),
                Stage::Finish(ending) => Stage::Finish(ending),
                other => panic!("{:?}", other),
            };
        }
        let expected = match bits {
            _ if bits & 1 != 0 => bits & 2 != 0,
            _ if bits & 2 != 0 => bits & 4 != 0,
            _ if bits & 4 != 0 => bits & 8 != 0,
            _ => false,
        };
        match stage {
            Stage::Finish(Ending { report: Some(result), outcome: Ok(()) }) => {
                assert_eq!(result.is_err(), expected)
            }
            other => panic!("{:?}", other),
        }
    }
}

#[test]
fn longest_course_of_a_frame_takes_eleven_steps() {
    let mut steps = 0;
    let mut stage = Stage::<Bytes>::received(Ok(Some(Frame::Text(Some(vec![1])))));
    let mut failing = vec![false, false, true, false, false, false, true, false].into_iter();
    loop {
        stage = match stage {
            Stage::Parse(payload) => Stage::parsed(Ok(payload.unwrap())),
            Stage::Deliver(_) => Stage::responded(WsResponse::Close),
            Stage::Perform(_, exchange) => exchange.resume(if failing.next().unwrap() {
                Err(ProtocolError::Overflow)
            } else {
                Ok(())
            }),
            Stage::Check(status) => Stage::checked(false, status),
            Stage::Finish(ending) => {
                assert!(matches!(ending.report, Some(Ok(()))));
                break;
            }
            other => panic!("{:?}", other),
        };
        steps += 1;
    }
    assert_eq!(steps, 11);
}
