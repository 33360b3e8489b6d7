use actix_http::ws::ProtocolError;
use crossbeam_channel::RecvError;
use futures::{Future, Stream};
use splinter_ws::{
    Action, Context, Dialogue, Ending, ErrorCallback, Exchange, Frame, Igniter, Listen, Message,
    MessageCallback, OpenCallback, ParseBytes, ParseError, ShutdownHandle, SinkOp, WebSocketClient,
    WebSocketError, WsResponse, MAX_FRAME_SIZE,
};
use std::sync::atomic::{AtomicUsize, Ordering};
use std::sync::{Arc, Mutex};

type Log = Arc<Mutex<Vec<String>>>;

fn note(log: &Log, entry: String) {
    log.lock().unwrap().push(entry);
}

fn entries(log: &Log) -> Vec<String> {
    log.lock().unwrap().clone()
}

/// A message that holds a decimal digit.
#[derive(Clone, Debug)]
struct Digit(u8);

impl ParseBytes<Digit> for Digit {
    fn from_bytes(bytes: &[u8]) -> Result<Digit, ParseError> {
        match bytes {
            [byte] if byte.is_ascii_digit() => Ok(Digit(byte - b'0')),
            _ => Err(ParseError::MalformedMessage(format!("{:?}", bytes))),
        }
    }
}

struct Handler {
    log: Log,
}

impl<W> MessageCallback<Context<Starter, W>, Digit> for Handler {
    fn on_message(&self, context: Context<Starter, W>, message: Digit) -> WsResponse {
        note(&self.log, format!("message {} by {}", message.0, context.igniter.name));
        match message.0 {
            0 => WsResponse::Empty,
            1 => WsResponse::Close,
            2 => WsResponse::Bytes(vec![2, 2]),
            _ => WsResponse::Text("welcome to earth!!!".to_string()),
        }
    }
}

impl<W> OpenCallback<Context<Starter, W>> for Handler {
    fn on_open(&self, context: Context<Starter, W>) -> WsResponse {
        note(&self.log, format!("open by {}", context.igniter.name));
        WsResponse::Text("hello, world".to_string())
    }
}

impl<W> ErrorCallback<Context<Starter, W>> for Handler
where
    Starter: Igniter<W>,
{
    fn on_error(&self, error: &WebSocketError, context: Context<Starter, W>) -> Result<(), WebSocketError> {
        note(&self.log, format!("error {:?}", error));
        context.start_ws()
    }
}

#[derive(Clone)]
struct Starter {
    name: String,
    started: Arc<AtomicUsize>,
    fails: bool,
}

type Client = WebSocketClient<Digit, Handler, Handler, Handler>;

impl Igniter<Client> for Starter {
    fn start_ws(&self, ws: &Client) -> Result<(), WebSocketError> {
        if self.fails {
            return Err(WebSocketError::RequestBuilderError(ws.url()));
        }
        self.started.fetch_add(1, Ordering::SeqCst);
        Ok(())
    }
}

fn starter(fails: bool) -> Starter {
    Starter { name: "reactor".to_string(), started: Arc::new(AtomicUsize::new(0)), fails }
}

fn client(log: &Log) -> Client {
    WebSocketClient::new("http://echo.websocket.org", Handler { log: log.clone() })
}

fn listen(client: &Client, igniter: Starter) -> Listen<Digit, Handler, Handler, Handler, Starter> {
    match client.listen(igniter) {
        Ok(listen) => listen,
        Err(err) => panic!("{:?}", err),
    }
}

/// The dialogue of a client without callbacks for the opening and for errors, and the handle.
fn bare(log: &Log) -> (Dialogue<Digit, Handler, Handler, Handler, Starter>, ShutdownHandle) {
    let (connection, handle) = listen(&client(log), starter(false)).into_shutdown_handle();
    (connection.dialogue, handle)
}

fn succeed(dialogue: &Dialogue<Digit, Handler, Handler, Handler, Starter>, action: Action) -> (Vec<String>, Action) {
    let mut ops = Vec::new();
    let mut action = action;
    loop {
        action = match action {
            Action::Perform(op, exchange) => {
                ops.push(format!("{:?}", op));
                dialogue.performed(exchange, Ok(()))
            }
            other => return (ops, other),
        };
    }
}

const CLOSE_NORMAL: &str = "Send(Close(Some(CloseReason { code: Normal, description: None })))";
const CLOSE_PROTOCOL: &str = "Send(Close(Some(CloseReason { code: Protocol, description: None })))";

#[test]
fn new_client_has_a_url_and_no_optional_callbacks() {
    let log = Log::default();
    let client = client(&log);
    assert_eq!(client.url(), "http://echo.websocket.org");
    assert!(client.on_open.is_none());
    assert!(client.on_error.is_none());
}

#[test]
fn callbacks_are_added_and_cloned() {
    let log = Log::default();
    let mut client = client(&log);
    client.on_open(Handler { log: log.clone() });
    assert!(client.on_open.is_some() && client.on_error.is_none());
    client.on_error(Handler { log: log.clone() });
    let copy = client.clone();
    assert_eq!(copy.url(), client.url());
    assert!(Arc::ptr_eq(&copy.on_message, &client.on_message));
    assert!(Arc::ptr_eq(copy.on_open.as_ref().unwrap(), client.on_open.as_ref().unwrap()));
    assert!(Arc::ptr_eq(copy.on_error.as_ref().unwrap(), client.on_error.as_ref().unwrap()));
}

#[test]
fn context_starts_its_websocket() {
    let log = Log::default();
    let context = Context::new(starter(false), client(&log));
    assert!(context.start_ws().is_ok());
    assert!(context.clone().start_ws().is_ok());
    assert_eq!(context.igniter().started.load(Ordering::SeqCst), 2);
    assert_eq!(context.igniter().name, "reactor");
    let context = Context::new(starter(true), client(&log));
    assert!(matches!(
        context.start_ws(),
        Err(WebSocketError::RequestBuilderError(text)) if text == "http://echo.websocket.org"
    ));
}

#[test]
fn listen_asks_for_an_upgrade() {
    let log = Log::default();
    let listen = listen(&client(&log), starter(false));
    let request = &listen.connection.request;
    assert_eq!(request.method(), "GET");
    assert_eq!(request.uri().to_string(), "http://echo.websocket.org/");
    assert_eq!(request.headers().len(), 4);
    assert_eq!(request.headers()["upgrade"], "websocket");
    assert_eq!(request.headers()["connection"], "Upgrade");
    assert_eq!(request.headers()["sec-websocket-version"], "13");
    assert_eq!(request.headers()["sec-websocket-key"], "13");
    assert_eq!(listen.connection.dialogue.context.ws.url(), "http://echo.websocket.org");
}

#[test]
fn listen_sets_up_a_client_codec() {
    let log = Log::default();
    let listen = listen(&client(&log), starter(false));
    assert_eq!(MAX_FRAME_SIZE, 10_000_000);
    assert_eq!(
        format!("{:?}", listen.connection.codec),
        "Codec { max_size: 10000000, server: false }"
    );
}

#[test]
fn listen_sets_the_flag_and_makes_room_for_one_result() {
    let log = Log::default();
    let listen = listen(&client(&log), starter(false));
    assert!(listen.running.load(Ordering::SeqCst));
    assert!(Arc::ptr_eq(&listen.running, &listen.connection.dialogue.running));
    assert_eq!(listen.receiver.capacity(), Some(1));
    assert!(listen.receiver.is_empty());
}

#[test]
fn listen_fails_for_a_url_that_is_no_uri() {
    let log = Log::default();
    let client: Client = WebSocketClient::new("http://echo websocket", Handler { log });
    match client.listen(starter(false)) {
        Err(WebSocketError::RequestBuilderError(text)) => {
            assert_eq!(text, "http::Error(InvalidUriBytes(InvalidUri(InvalidUriChar)))")
        }
        _ => panic!("a request was built"),
    }
}

#[test]
fn listen_with_takes_either_result_of_the_request() {
    let log = Log::default();
    let failed = client(&log).listen_with(starter(false), Err("no such thing".to_string()));
    assert!(matches!(
        failed,
        Err(WebSocketError::RequestBuilderError(text)) if text == "no such thing"
    ));
    let request = hyper::Request::builder().uri("/other").body(hyper::Body::empty()).unwrap();
    match client(&log).listen_with(starter(false), Ok(request)) {
        Ok(listen) => assert_eq!(listen.connection.request.uri().to_string(), "/other"),
        Err(err) => panic!("{:?}", err),
    }
}

#[test]
fn conversation() {
    let log = Log::default();
    let mut client = client(&log);
    client.on_open(Handler { log: log.clone() });
    let (connection, handle) = listen(&client, starter(false)).into_shutdown_handle();
    let dialogue = connection.dialogue;

    let (ops, action) = succeed(&dialogue, dialogue.connected(Ok(())));
    assert_eq!(ops, vec!["Send(Text(\"hello, world\"))", "Flush"]);
    assert!(matches!(action, Action::NextFrame));

    let (ops, action) = succeed(&dialogue, dialogue.received(Ok(Some(Frame::Text(Some(b"7".to_vec()))))));
    assert_eq!(ops, vec!["Send(Text(\"welcome to earth!!!\"))", "Flush"]);
    assert!(matches!(action, Action::NextFrame));

    let (ops, action) = succeed(&dialogue, dialogue.received(Ok(Some(Frame::Binary(Some(b"2".to_vec()))))));
    assert_eq!(ops, vec!["Send(Binary([2, 2]))", "Flush"]);
    assert!(matches!(action, Action::NextFrame));

    let (ops, action) = succeed(&dialogue, dialogue.received(Ok(Some(Frame::Ping("beat".to_string())))));
    assert_eq!(ops, vec!["Send(Pong(\"beat\"))"]);
    assert!(matches!(action, Action::NextFrame));

    let (ops, action) = succeed(&dialogue, dialogue.received(Ok(Some(Frame::Close))));
    assert_eq!(ops, vec![CLOSE_NORMAL, "Flush", "Close"]);
    match action {
        Action::Finish(ending) => assert!(dialogue.finish(ending).outcome.is_ok()),
        other => panic!("{:?}", other),
    }
    assert!(handle.shutdown().is_ok());
    assert_eq!(
        entries(&log),
        vec!["open by reactor", "message 7 by reactor", "message 2 by reactor"]
    );
}

#[test]
fn close_response_keeps_listening() {
    let log = Log::default();
    let (dialogue, _handle) = bare(&log);
    let (ops, action) = succeed(&dialogue, dialogue.received(Ok(Some(Frame::Text(Some(b"1".to_vec()))))));
    assert_eq!(ops, vec![CLOSE_NORMAL, "Flush", "Close"]);
    assert!(matches!(action, Action::NextFrame));
}

#[test]
fn nothing_is_sent_without_a_callback_for_the_opening() {
    let log = Log::default();
    let (dialogue, _handle) = bare(&log);
    assert!(matches!(dialogue.connected(Ok(())), Action::NextFrame));
    assert!(matches!(
        dialogue.received(Ok(Some(Frame::Text(Some(b"0".to_vec()))))),
        Action::NextFrame
    ));
}

#[test]
fn failed_connection_ends_silently() {
    let failing = futures::stream::once(Err::<hyper::Chunk, std::io::Error>(std::io::Error::new(
        std::io::ErrorKind::Other,
        "no route",
    )));
    let error = hyper::Body::wrap_stream(failing).concat2().wait().unwrap_err();
    let log = Log::default();
    let (dialogue, handle) = bare(&log);
    match dialogue.connected(Err(error)) {
        Action::Finish(ending) => {
            assert!(ending.report.is_none());
            let finished = dialogue.finish(ending);
            assert!(matches!(finished.outcome, Err(WebSocketError::HyperError(_))));
            assert!(!finished.report_lost);
        }
        other => panic!("{:?}", other),
    }
    assert!(matches!(handle.shutdown(), Err(WebSocketError::ShutdownError(RecvError))));
}

#[test]
fn malformed_message_calls_the_error_callback() {
    let log = Log::default();
    let mut client = client(&log);
    client.on_error(Handler { log: log.clone() });
    let igniter = starter(false);
    let started = igniter.started.clone();
    let (connection, handle) = listen(&client, igniter).into_shutdown_handle();
    let dialogue = connection.dialogue;
    let (ops, action) = succeed(&dialogue, dialogue.received(Ok(Some(Frame::Binary(None)))));
    assert_eq!(ops, vec![CLOSE_PROTOCOL, "Flush", "Close"]);
    match action {
        Action::Finish(ending) => assert!(dialogue.finish(ending).outcome.is_ok()),
        other => panic!("{:?}", other),
    }
    assert!(handle.shutdown().is_ok());
    assert_eq!(started.load(Ordering::SeqCst), 1);
    assert_eq!(
        entries(&log),
        vec!["error ParserError { parse_error: MalformedMessage(\"[]\"), shutdown_error: None }"]
    );
}

#[test]
fn failed_error_callback_is_reported() {
    let log = Log::default();
    let mut client = client(&log);
    client.on_error(Handler { log: log.clone() });
    let (connection, handle) = listen(&client, starter(true)).into_shutdown_handle();
    let dialogue = connection.dialogue;
    let (_, action) = succeed(&dialogue, dialogue.received(Ok(Some(Frame::Text(Some(b"x".to_vec()))))));
    match action {
        Action::Finish(ending) => assert!(dialogue.finish(ending).outcome.is_ok()),
        other => panic!("{:?}", other),
    }
    match handle.shutdown() {
        Err(WebSocketError::OnFailError { original_error, on_fail_error }) => {
            assert!(matches!(*original_error, WebSocketError::ParserError { shutdown_error: None, .. }));
            assert!(matches!(*on_fail_error, WebSocketError::RequestBuilderError(_)));
        }
        other => panic!("{:?}", other),
    }
}

#[test]
fn unexpected_close_is_a_success_without_an_error_callback() {
    let log = Log::default();
    let (dialogue, handle) = bare(&log);
    let (_, action) = succeed(&dialogue, dialogue.received(Ok(Some(Frame::Text(Some(b"x".to_vec()))))));
    match action {
        Action::Finish(ending) => assert!(dialogue.finish(ending).outcome.is_ok()),
        other => panic!("{:?}", other),
    }
    assert!(handle.shutdown().is_ok());
}

#[test]
fn cleared_flag_stops_the_websocket_at_the_next_frame() {
    let log = Log::default();
    let (dialogue, handle) = bare(&log);
    handle.running.store(false, Ordering::SeqCst);
    let (ops, action) = succeed(&dialogue, dialogue.received(Ok(Some(Frame::Pong("beat".to_string())))));
    assert_eq!(ops, vec![CLOSE_NORMAL, "Flush", "Close"]);
    match action {
        Action::Finish(ending) => assert!(dialogue.finish(ending).outcome.is_ok()),
        other => panic!("{:?}", other),
    }
    assert!(handle.shutdown().is_ok());
}

#[test]
fn shutdown_clears_the_flag_and_returns_the_report() {
    let log = Log::default();
    let (dialogue, handle) = bare(&log);
    let copy = handle.clone();
    assert!(Arc::ptr_eq(&copy.running, &handle.running));
    assert!(copy.receiver.same_channel(&handle.receiver));
    let running = handle.running.clone();
    let report = Err(WebSocketError::RequestBuilderError("late".to_string()));
    let ending = Ending { report: Some(report), outcome: Ok(()) };
    let finished = dialogue.finish(ending);
    assert!(finished.outcome.is_ok() && !finished.report_lost);
    assert!(running.load(Ordering::SeqCst));
    let result = handle.shutdown();
    assert!(matches!(result, Err(WebSocketError::RequestBuilderError(text)) if text == "late"));
    assert!(!running.load(Ordering::SeqCst));
    assert!(matches!(copy.shutdown(), Err(WebSocketError::ShutdownError(RecvError))));
}

#[test]
fn result_is_the_report_or_an_error() {
    assert!(ShutdownHandle::result(Ok(Ok(()))).is_ok());
    assert!(matches!(
        ShutdownHandle::result(Err(RecvError)),
        Err(WebSocketError::ShutdownError(RecvError))
    ));
}

#[test]
fn report_to_a_dropped_handle_is_lost() {
    let log = Log::default();
    let (dialogue, handle) = bare(&log);
    drop(handle);
    let finished = dialogue.finish(Ending { report: Some(Ok(())), outcome: Ok(()) });
    assert!(finished.outcome.is_ok());
    assert!(finished.report_lost);
}

#[test]
fn sink_operations_are_asked_for_one_by_one() {
    let log = Log::default();
    let (dialogue, _handle) = bare(&log);
    match dialogue.received(Ok(Some(Frame::Text(Some(b"5".to_vec()))))) {
        Action::Perform(SinkOp::Send(Message::Text(text)), exchange) => {
            assert_eq!(text, "welcome to earth!!!");
            assert!(matches!(&exchange, Exchange::Replying(_)));
            assert!(matches!(dialogue.performed(exchange, Ok(())), Action::Perform(SinkOp::Flush, _)));
        }
        other => panic!("{:?}", other),
    }
}

#[test]
fn stream_error_calls_the_error_callback_once() {
    let log = Log::default();
    let mut client = client(&log);
    client.on_error(Handler { log: log.clone() });
    let igniter = starter(false);
    let started = igniter.started.clone();
    let (connection, handle) = listen(&client, igniter).into_shutdown_handle();
    let dialogue = connection.dialogue;
    match dialogue.received(Err(ProtocolError::MaskedFrame)) {
        Action::Finish(ending) => assert!(matches!(
            dialogue.finish(ending).outcome,
            Err(WebSocketError::ProtocolError(ProtocolError::MaskedFrame))
        )),
        other => panic!("{:?}", other),
    }
    assert_eq!(started.load(Ordering::SeqCst), 1);
    assert_eq!(entries(&log), vec!["error ProtocolError(MaskedFrame)"]);
    assert!(matches!(handle.shutdown(), Err(WebSocketError::ShutdownError(RecvError))));
}

#[test]
fn failed_opening_calls_the_error_callback_once() {
    let log = Log::default();
    let mut client = client(&log);
    client.on_open(Handler { log: log.clone() });
    client.on_error(Handler { log: log.clone() });
    let igniter = starter(false);
    let started = igniter.started.clone();
    let (connection, handle) = listen(&client, igniter).into_shutdown_handle();
    let dialogue = connection.dialogue;
    let action = match dialogue.connected(Ok(())) {
        Action::Perform(_, exchange) => dialogue.performed(exchange, Err(ProtocolError::Overflow)),
        other => panic!("{:?}", other),
    };
    let (ops, action) = succeed(&dialogue, action);
    assert_eq!(ops, vec![CLOSE_PROTOCOL, "Flush", "Close"]);
    match action {
        Action::Finish(ending) => assert!(dialogue.finish(ending).outcome.is_ok()),
        other => panic!("{:?}", other),
    }
    assert_eq!(started.load(Ordering::SeqCst), 1);
    assert_eq!(entries(&log), vec!["open by reactor", "error ProtocolError(Overflow)"]);
    assert!(matches!(
        handle.shutdown(),
        Err(WebSocketError::ProtocolError(ProtocolError::Overflow))
    ));
}

#[test]
fn stop_clears_the_flag_before_any_wait() {
    let log = Log::default();
    let (dialogue, handle) = bare(&log);
    let running = handle.running.clone();
    let stopping = handle.stop();
    assert!(!running.load(Ordering::SeqCst));
    assert!(!dialogue.finish(Ending { report: Some(Ok(())), outcome: Ok(()) }).report_lost);
    assert!(stopping.wait().is_ok());
    assert!(!running.load(Ordering::SeqCst));
}

#[test]
fn listens_of_one_client_are_shut_down_independently() {
    let log = Log::default();
    let client = client(&log);
    let (first, first_handle) = listen(&client, starter(false)).into_shutdown_handle();
    let (second, second_handle) = listen(&client, starter(false)).into_shutdown_handle();
    first.dialogue.finish(Ending { report: Some(Ok(())), outcome: Ok(()) });
    assert!(second_handle.receiver.is_empty());
    let late = WebSocketError::RequestBuilderError("late".to_string());
    second.dialogue.finish(Ending { report: Some(Err(late)), outcome: Ok(()) });
    assert!(first_handle.shutdown().is_ok());
    assert!(second_handle.running.load(Ordering::SeqCst));
    assert_eq!(second_handle.receiver.len(), 1);
    assert!(second_handle.shutdown().is_err());
}

#[test]
fn a_frame_is_the_last_only_for_a_reason() {
    let log = Log::default();
    for running in [true, false] {
        let frames = vec![
            (Frame::Text(Some(b"0".to_vec())), false),
            (Frame::Text(Some(b"9".to_vec())), false),
            (Frame::Binary(Some(b"x".to_vec())), true),
            (Frame::Ping("beat".to_string()), false),
            (Frame::Pong("beat".to_string()), false),
            (Frame::Close, true),
        ];
        for (frame, last) in frames {
            let (dialogue, handle) = bare(&log);
            handle.running.store(running, Ordering::SeqCst);
            let (_, action) = succeed(&dialogue, dialogue.received(Ok(Some(frame))));
            match action {
                Action::NextFrame => assert!(running && !last),
                Action::Finish(ending) => {
                    assert!(last || !running);
                    assert!(matches!(ending.report, Some(Ok(()))));
                }
                other => panic!("{:?}", other),
            }
        }
    }
}

#[test]
fn a_failed_response_makes_a_frame_the_last() {
    let log = Log::default();
    let (dialogue, _handle) = bare(&log);
    let action = match dialogue.received(Ok(Some(Frame::Ping("beat".to_string())))) {
        Action::Perform(_, exchange) => dialogue.performed(exchange, Err(ProtocolError::Overflow)),
        other => panic!("{:?}", other),
    };
    let (ops, action) = succeed(&dialogue, action);
    assert_eq!(ops, vec![CLOSE_PROTOCOL, "Flush", "Close"]);
    assert!(matches!(action, Action::Finish(Ending { report: Some(Ok(())), outcome: Ok(()) })));
}
