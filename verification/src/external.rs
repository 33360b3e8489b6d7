//! What is taken from outside crates: their types, and the contracts of the
//! functions of theirs that verified code calls.

use actix_http::ws::{Codec, ProtocolError};
use crossbeam_channel::{Receiver, RecvError, SendError, Sender};
use hyper::{Body, Request};
use std::sync::Arc;
use vstd::prelude::*;

verus! {

/// `actix_http::ws::ProtocolError`: why a frame could not be read or written. Only carried.
#[verifier::external_type_specification]
#[verifier::external_body]
pub struct ExProtocolError(ProtocolError);

/// `actix_http::ws::Codec`: how frames are read from bytes and written to bytes. Only carried.
#[verifier::external_type_specification]
#[verifier::external_body]
pub struct ExCodec(Codec);

/// `hyper::Error`: why a connection could not be made or upgraded. Only carried.
#[verifier::external_type_specification]
#[verifier::external_body]
pub struct ExHyperError(hyper::Error);

/// `hyper::Body`: the body of a request. Only carried.
#[verifier::external_type_specification]
#[verifier::external_body]
pub struct ExBody(Body);

/// `hyper::Request`: an HTTP request. Only carried.
#[verifier::external_type_specification]
#[verifier::external_body]
#[verifier::reject_recursive_types(T)]
pub struct ExRequest<T>(Request<T>);

/// `crossbeam_channel::Sender`: the sending side of a channel.
#[verifier::external_type_specification]
#[verifier::external_body]
#[verifier::reject_recursive_types(T)]
pub struct ExSender<T>(Sender<T>);

/// `crossbeam_channel::Receiver`: the receiving side of a channel.
#[verifier::external_type_specification]
#[verifier::external_body]
#[verifier::reject_recursive_types(T)]
pub struct ExReceiver<T>(Receiver<T>);

/// `crossbeam_channel::SendError`: a message that no receiver is left for. Only carried.
#[verifier::external_type_specification]
#[verifier::external_body]
#[verifier::reject_recursive_types(T)]
pub struct ExSendError<T>(SendError<T>);

/// `crossbeam_channel::RecvError`: the sending side is gone and left no message. Only carried.
#[verifier::external_type_specification]
#[verifier::external_body]
pub struct ExRecvError(RecvError);

/// `crossbeam_channel::bounded` creates a channel that holds `cap` messages at the most,
/// and returns its two sides. Nothing is stated of them: what a channel holds changes
/// with what other threads do to it.
pub assume_specification<T>[ crossbeam_channel::bounded::<T> ](cap: usize) -> (r: (
    Sender<T>,
    Receiver<T>,
));

/// `crossbeam_channel::Sender::send` puts a message into a channel, waiting while the
/// channel is full, and fails where no receiver is left. Nothing is stated of the result:
/// it depends on what other threads do.
pub assume_specification<T>[ Sender::<T>::send ](sender: &Sender<T>, msg: T) -> (r: Result<
    (),
    SendError<T>,
>);

/// `crossbeam_channel::Receiver::recv` takes a message out of a channel, waiting while the
/// channel is empty, and fails where it is empty and no sender is left. Nothing is stated
/// of the result: it depends on what other threads do.
pub assume_specification<T>[ Receiver::<T>::recv ](receiver: &Receiver<T>) -> (r: Result<
    T,
    RecvError,
>);

/// `Clone::clone` of `crossbeam_channel::Receiver` makes another receiver of the same
/// channel. Nothing is stated of it, for nothing is of the channel.
pub assume_specification<T>[ <Receiver<T> as Clone>::clone ](receiver: &Receiver<T>) -> (r:
    Receiver<T>);

/// What `hyper::Request::builder` makes of a URI and of four header fields, each a name
/// and a value: a request without a body, or the debug text of the error.
pub uninterp spec fn built_request(
    uri: Seq<char>,
    first: (Seq<char>, Seq<char>),
    second: (Seq<char>, Seq<char>),
    third: (Seq<char>, Seq<char>),
    fourth: (Seq<char>, Seq<char>),
) -> Result<Request<Body>, Seq<char>>;

/// Calls `hyper::Request::builder`, and on the builder `uri`, `header` for each of the four
/// fields in their order, and `body` with an empty body. An error is turned into its debug
/// text. The contract claims that the result depends on the arguments alone. The builder
/// panics at a field name of 65536 bytes or more, which a text of fewer than 16384
/// characters never takes.
#[verifier::external_body]
pub(crate) fn build_request(
    uri: String,
    first: (&str, &str),
    second: (&str, &str),
    third: (&str, &str),
    fourth: (&str, &str),
) -> (r: Result<Request<Body>, String>)
    requires
        first.0@.len() < 16384,
        second.0@.len() < 16384,
        third.0@.len() < 16384,
        fourth.0@.len() < 16384,
    ensures
        built_request(
            uri@,
            (first.0@, first.1@),
            (second.0@, second.1@),
            (third.0@, third.1@),
            (fourth.0@, fourth.1@),
        ) == (match r {
            Ok(request) => Ok(request),
            Err(text) => Err(text@),
        }),
{
    Request::builder()
        .uri(uri)
        .header(first.0, first.1)
        .header(second.0, second.1)
        .header(third.0, third.1)
        .header(fourth.0, fourth.1)
        .body(Body::empty())
        .map_err(|err| format!("{:?}", err))
}

/// The codec of a client that accepts frames of up to `max_size` bytes.
pub uninterp spec fn client_codec_of(max_size: usize) -> Codec;

/// Calls `actix_http::ws::Codec::new`, `max_size` with the given size, and `client_mode`.
/// The contract claims that the result depends on the size alone.
#[verifier::external_body]
pub(crate) fn client_codec(max_size: usize) -> (r: Codec)
    ensures
        r == client_codec_of(max_size),
{
    Codec::new().max_size(max_size).client_mode()
}

/// Calls `Arc::clone`, which makes another pointer to the same value.
#[verifier::external_body]
pub(crate) fn share<H>(value: &Arc<H>) -> (r: Arc<H>)
    ensures
        r == *value,
{
    value.clone()
}

} // verus!
