use actix_http::ws::ProtocolError;
use splinter_ws::{
    do_shutdown, handle_response, CloseCode, CloseReason, Message, Reply, Shutdown, SinkOp, Step,
    WebSocketError, WsResponse,
};

type Outcome = Result<(), ProtocolError>;

fn name(op: &SinkOp) -> String {
    format!("{:?}", op)
}

const CLOSE_NORMAL: &str = "Send(Close(Some(CloseReason { code: Normal, description: None })))";
const CLOSE_PROTOCOL: &str = "Send(Close(Some(CloseReason { code: Protocol, description: None })))";

fn run_shutdown(code: CloseCode, outcomes: Vec<Outcome>) -> (Vec<String>, Outcome) {
    let (op, mut shutdown): (SinkOp, Shutdown) = do_shutdown(code);
    let mut ops = vec![name(&op)];
    for outcome in outcomes {
        match shutdown.resume(outcome) {
            Step::Perform(op, next) => {
                ops.push(name(&op));
                shutdown = next;
            }
            Step::Done(result) => return (ops, result),
        }
    }
    panic!("the shutdown goes on after {:?}", ops)
}

fn run_response(res: WsResponse, outcomes: Vec<Outcome>) -> (Vec<String>, Result<(), WebSocketError>) {
    let mut ops = Vec::new();
    let mut step: Step<Reply, Result<(), WebSocketError>> = handle_response(res);
    let mut outcomes = outcomes.into_iter();
    loop {
        match step {
            Step::Perform(op, reply) => {
                ops.push(name(&op));
                step = reply.resume(outcomes.next().unwrap());
            }
            Step::Done(result) => {
                assert!(outcomes.next().is_none());
                return (ops, result);
            }
        }
    }
}

#[test]
fn close_reason_has_no_description() {
    let reason = CloseReason::from(CloseCode::Protocol);
    assert_eq!(reason.code, CloseCode::Protocol);
    assert_eq!(reason.description, None);
}

#[test]
fn shutdown_sends_flushes_and_closes() {
    let (ops, result) = run_shutdown(CloseCode::Normal, vec![Ok(()), Ok(()), Ok(())]);
    assert_eq!(ops, vec![CLOSE_NORMAL, "Flush", "Close"]);
    assert!(result.is_ok());
}

#[test]
fn shutdown_closes_at_once_where_sending_fails() {
    let (ops, result) = run_shutdown(CloseCode::Protocol, vec![Err(ProtocolError::Overflow), Ok(())]);
    assert_eq!(ops, vec![CLOSE_PROTOCOL, "Close"]);
    assert!(result.is_ok());
}

#[test]
fn shutdown_closes_where_flushing_fails() {
    let (ops, result) = run_shutdown(
        CloseCode::Normal,
        vec![Ok(()), Err(ProtocolError::Overflow), Err(ProtocolError::BadOpCode)],
    );
    assert_eq!(ops, vec![CLOSE_NORMAL, "Flush", "Close"]);
    assert!(matches!(result, Err(ProtocolError::BadOpCode)));
}

#[test]
fn shutdown_closes_once_more_where_closing_fails() {
    let (ops, result) = run_shutdown(
        CloseCode::Normal,
        vec![Ok(()), Ok(()), Err(ProtocolError::Overflow), Ok(())],
    );
    assert_eq!(ops, vec![CLOSE_NORMAL, "Flush", "Close", "Close"]);
    assert!(result.is_ok());
    let (_, result) = run_shutdown(
        CloseCode::Normal,
        vec![Ok(()), Ok(()), Err(ProtocolError::Overflow), Err(ProtocolError::BadOpCode)],
    );
    assert!(matches!(result, Err(ProtocolError::BadOpCode)));
}

#[test]
fn text_and_bytes_are_sent_and_flushed() {
    let (ops, result) = run_response(WsResponse::Text("hello, world".to_string()), vec![Ok(()), Ok(())]);
    assert_eq!(ops, vec!["Send(Text(\"hello, world\"))", "Flush"]);
    assert!(result.is_ok());
    let (ops, result) = run_response(WsResponse::Bytes(vec![1, 2, 3]), vec![Ok(()), Ok(())]);
    assert_eq!(ops, vec!["Send(Binary([1, 2, 3]))", "Flush"]);
    assert!(result.is_ok());
}

#[test]
fn pong_is_sent_and_not_flushed() {
    let step = handle_response(WsResponse::Pong("tick".to_string()));
    match step {
        Step::Perform(SinkOp::Send(Message::Pong(text)), reply) => {
            assert_eq!(text, "tick");
            assert!(matches!(reply.resume(Ok(())), Step::Done(Ok(()))));
        }
        _ => panic!("a pong is sent first"),
    }
}

#[test]
fn empty_response_does_nothing() {
    let (ops, result) = run_response(WsResponse::Empty, vec![]);
    assert!(ops.is_empty());
    assert!(result.is_ok());
}

#[test]
fn close_response_shuts_down_normally() {
    let (ops, result) = run_response(WsResponse::Close, vec![Ok(()), Ok(()), Ok(())]);
    assert_eq!(ops, vec![CLOSE_NORMAL, "Flush", "Close"]);
    assert!(result.is_ok());
    let (ops, result) = run_response(
        WsResponse::Close,
        vec![Err(ProtocolError::Overflow), Err(ProtocolError::BadOpCode)],
    );
    assert_eq!(ops, vec![CLOSE_NORMAL, "Close"]);
    assert!(matches!(result, Err(WebSocketError::ProtocolError(ProtocolError::BadOpCode))));
}

#[test]
fn failed_sending_shuts_down_for_a_protocol_error() {
    let (ops, result) = run_response(
        WsResponse::Text("a".to_string()),
        vec![Err(ProtocolError::Overflow), Ok(()), Ok(()), Ok(())],
    );
    assert_eq!(ops, vec!["Send(Text(\"a\"))", CLOSE_PROTOCOL, "Flush", "Close"]);
    assert!(matches!(result, Err(WebSocketError::ProtocolError(ProtocolError::Overflow))));
}

#[test]
fn failed_flushing_shuts_down_for_a_protocol_error() {
    let (ops, result) = run_response(
        WsResponse::Bytes(vec![7]),
        vec![Ok(()), Err(ProtocolError::Overflow), Ok(()), Ok(()), Ok(())],
    );
    assert_eq!(ops, vec!["Send(Binary([7]))", "Flush", CLOSE_PROTOCOL, "Flush", "Close"]);
    assert!(matches!(result, Err(WebSocketError::ProtocolError(ProtocolError::Overflow))));
}

#[test]
fn failed_sending_and_failed_closing_are_told_together() {
    let (ops, result) = run_response(
        WsResponse::Pong("a".to_string()),
        vec![
            Err(ProtocolError::Overflow),
            Err(ProtocolError::BadEncoding),
            Err(ProtocolError::BadOpCode),
        ],
    );
    assert_eq!(ops, vec!["Send(Pong(\"a\"))", CLOSE_PROTOCOL, "Close"]);
    assert!(matches!(
        result,
        Err(WebSocketError::AbnormalShutdownError {
            protocol_error: ProtocolError::Overflow,
            shutdown_error: ProtocolError::BadOpCode,
        })
    ));
}
