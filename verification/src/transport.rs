//! The client's side of one exchange with a source: when to try again to
//! connect, which bytes to send for a request, and what the bytes that came
//! back mean.
//!
//! The socket itself belongs to the program around this library. It asks
//! [`ConnectRetry`] before every attempt to connect, writes what
//! [`request_frame`] gives, feeds what it reads to a
//! [`FrameDecoder`](crate::framing::FrameDecoder) until nothing is missing or
//! the connection closes, and hands the reader to [`read_response`]. One
//! connection serves one request.

use vstd::prelude::*;
use crate::dto::{Request, Response, ResponseView};
use crate::framing::{
    encode_frame, frame_of, is_complete, lemma_frame_then_rest, FrameDecoder, FramingError,
    MAX_PAYLOAD,
};
use crate::wire::{
    decode_request, decode_response, encode_request, encode_response, lemma_payload_round_trip,
    lemma_response_payload_round_trip, payload_of, response_encoding, response_of_payload,
    value_of_payload, ProtocolError, Wire,
};
use crate::json::{parsed_text, printed_value};

verus! {

/// Number of attempts to connect before a source counts as unreachable.
pub const CONNECT_ATTEMPTS: u32 = 20;

/// Milliseconds to wait between two attempts to connect.
pub const RETRY_DELAY_MS: u64 = 50;

/// Why an exchange failed below the level of messages.
#[derive(Clone, Copy, Debug, PartialEq, Eq, Structural)]
pub enum TransportError {
    /// Every attempt to connect failed.
    ConnectionExhausted,
    /// Reading or writing failed in the middle of the exchange.
    Interrupted,
    /// The connection closed before the announced payload had arrived.
    MalformedFrame,
    /// The payload is too long to be framed.
    PayloadTooLarge,
}

/// Why an exchange failed.
#[derive(Clone, Copy, Debug, PartialEq, Eq, Structural)]
pub enum ExchangeError {
    Transport(TransportError),
    Protocol(ProtocolError),
}

/// The transport error that a framing error is reported as.
pub open spec fn transport_error_of(e: FramingError) -> TransportError {
    match e {
        FramingError::PayloadTooLarge => TransportError::PayloadTooLarge,
        FramingError::Truncated => TransportError::MalformedFrame,
    }
}

/// What the client does next while it tries to connect.
#[derive(Clone, Copy, Debug, PartialEq, Eq, Structural)]
pub enum ConnectStep {
    /// Wait for `delay_ms` milliseconds, then try to connect.
    Attempt { delay_ms: u64 },
    /// Stop trying: the connection attempts are exhausted.
    GiveUp,
}

/// The step that follows `failures` failed attempts under a budget of
/// `limit` attempts: another attempt while the budget is not used up, at once
/// for the first and after the retry delay for the others; then giving up.
pub open spec fn step_after(limit: nat, failures: nat) -> ConnectStep {
    if failures >= limit {
        ConnectStep::GiveUp
    } else if failures == 0 {
        ConnectStep::Attempt { delay_ms: 0 }
    } else {
        ConnectStep::Attempt { delay_ms: RETRY_DELAY_MS }
    }
}

/// Connecting fails only after exactly the budget of attempts: while fewer
/// attempts than the budget have failed the next step is another attempt,
/// and once as many have failed it is to give up. An attempt that succeeds
/// ends the connecting at once, since no step is asked for after it.
pub proof fn lemma_gives_up_after_exactly_the_budget(limit: nat, failures: nat)
    ensures
        failures < limit ==> step_after(limit, failures) is Attempt,
        failures >= limit ==> step_after(limit, failures) is GiveUp,
        step_after(limit, failures) is GiveUp <==> failures >= limit,
{
}

/// The retry policy for connecting to a source, which absorbs the time
/// between the start of a source's process and the moment it listens.
#[derive(Clone, Copy, Debug, PartialEq, Eq)]
pub struct ConnectRetry {
    limit: u32,
    failures: u32,
}

impl ConnectRetry {
    /// The budget of attempts.
    pub closed spec fn limit(self) -> nat {
        self.limit as nat
    }

    /// Number of attempts that have failed so far.
    pub closed spec fn failures(self) -> nat {
        self.failures as nat
    }

    /// A policy with a budget of `limit` attempts, none of them used.
    pub fn new(limit: u32) -> (r: Self)
        ensures
            r.limit() == limit,
            r.failures() == 0,
    {
        ConnectRetry { limit, failures: 0 }
    }

    /// The policy that this client uses: `CONNECT_ATTEMPTS` attempts.
    pub fn standard() -> (r: Self)
        ensures
            r.limit() == CONNECT_ATTEMPTS,
            r.failures() == 0,
    {
        ConnectRetry::new(CONNECT_ATTEMPTS)
    }

    /// Number of attempts that have failed so far.
    pub fn failed_attempts(&self) -> (n: u32)
        ensures
            n == self.failures(),
    {
        self.failures
    }

    /// What to do next.
    pub fn next_step(&self) -> (step: ConnectStep)
        ensures
            step == step_after(self.limit(), self.failures()),
    {
        if self.failures >= self.limit {
            ConnectStep::GiveUp
        } else if self.failures == 0 {
            ConnectStep::Attempt { delay_ms: 0 }
        } else {
            ConnectStep::Attempt { delay_ms: RETRY_DELAY_MS }
        }
    }

    /// Records that the attempt just made has failed. Failures beyond the
    /// budget are not counted.
    pub fn record_failure(&mut self)
        ensures
            final(self).limit() == old(self).limit(),
            old(self).failures() < old(self).limit() ==> final(self).failures() == old(self).failures() + 1,
            old(self).failures() >= old(self).limit() ==> final(self).failures() == old(self).failures(),
    {
        if self.failures < self.limit {
            self.failures = self.failures + 1;
        }
    }
}

/// The address of the source that listens on `port` of this machine.
pub fn loopback_address(port: u16) -> (r: String)
    ensures
        r@ == "127.0.0.1:"@ + crate::text::decimal_digits(port as nat),
{
    let mut address = "127.0.0.1:".to_owned();
    address.append(crate::text::decimal(port as u64).as_str());
    address
}

/// The frame that carries the request with model `v`: `Unprintable` where it
/// cannot be written as JSON, `PayloadTooLarge` where the JSON is too long.
pub open spec fn framed<T: Wire>(v: T::V) -> Result<Seq<u8>, ExchangeError> {
    match payload_of::<T>(v) {
        None => Err(ExchangeError::Protocol(ProtocolError::Unprintable)),
        Some(payload) => if payload.len() <= MAX_PAYLOAD {
            Ok(frame_of(payload))
        } else {
            Err(ExchangeError::Transport(TransportError::PayloadTooLarge))
        },
    }
}

/// Frames a payload, or says why it cannot be framed.
fn frame_payload(payload: Result<Vec<u8>, ProtocolError>) -> (r: Result<Vec<u8>, ExchangeError>)
    ensures
        match payload {
            Err(e) => r == Err::<Vec<u8>, ExchangeError>(ExchangeError::Protocol(e)),
            Ok(p) => if p@.len() <= MAX_PAYLOAD {
                r is Ok && r->Ok_0@ == frame_of(p@)
            } else {
                r == Err::<Vec<u8>, ExchangeError>(
                    ExchangeError::Transport(TransportError::PayloadTooLarge),
                )
            },
        },
{
    match payload {
        Err(e) => Err(ExchangeError::Protocol(e)),
        Ok(p) => match encode_frame(p.as_slice()) {
            Ok(frame) => Ok(frame),
            Err(_) => Err(ExchangeError::Transport(TransportError::PayloadTooLarge)),
        },
    }
}

/// The bytes to write on a fresh connection for `request`.
pub fn request_frame(request: &Request) -> (r: Result<Vec<u8>, ExchangeError>)
    ensures
        match framed::<Request>(request@) {
            Ok(frame) => r is Ok && r->Ok_0@ == frame,
            Err(e) => r == Err::<Vec<u8>, ExchangeError>(e),
        },
{
    frame_payload(encode_request(request))
}

/// The frame that carries the response with model `v`.
pub open spec fn framed_response<T: Wire>(v: ResponseView<T::V>) -> Result<
    Seq<u8>,
    ExchangeError,
> {
    match printed_value(response_encoding::<T>(v)) {
        None => Err(ExchangeError::Protocol(ProtocolError::Unprintable)),
        Some(payload) => if payload.len() <= MAX_PAYLOAD {
            Ok(frame_of(payload))
        } else {
            Err(ExchangeError::Transport(TransportError::PayloadTooLarge))
        },
    }
}

/// The bytes that a source writes back for `response`.
pub fn response_frame<T: Wire>(response: &Response<T>) -> (r: Result<Vec<u8>, ExchangeError>)
    ensures
        match framed_response::<T>(response@) {
            Ok(frame) => r is Ok && r->Ok_0@ == frame,
            Err(e) => r == Err::<Vec<u8>, ExchangeError>(e),
        },
{
    frame_payload(encode_response(response))
}

/// What the bytes `received`, read until the frame was whole or the
/// connection closed, mean as a response with content of type `T`.
pub open spec fn response_in<T: Wire>(received: Seq<u8>) -> Result<
    ResponseView<T::V>,
    ExchangeError,
> {
    if is_complete(received) {
        match response_of_payload::<T>(received.skip(4)) {
            Ok(v) => Ok(v),
            Err(e) => Err(ExchangeError::Protocol(e)),
        }
    } else {
        Err(ExchangeError::Transport(TransportError::MalformedFrame))
    }
}

/// Ends the reading of a response: the response where the frame is whole
/// and its payload stands for one, `MalformedFrame` where the connection
/// closed before the frame was whole, the protocol's error where the payload
/// stands for no response.
pub fn read_response<T: Wire>(reader: FrameDecoder) -> (r: Result<Response<T>, ExchangeError>)
    requires
        reader.wf(),
    ensures
        match response_in::<T>(reader@) {
            Ok(v) => r is Ok && r->Ok_0@ == v,
            Err(e) => r is Err && r->Err_0 == e,
        },
{
    match reader.finish() {
        Err(_) => Err(ExchangeError::Transport(TransportError::MalformedFrame)),
        Ok(payload) => match decode_response::<T>(payload.as_slice()) {
            Ok(response) => Ok(response),
            Err(e) => Err(ExchangeError::Protocol(e)),
        },
    }
}

/// What the bytes `received` mean as a request.
pub open spec fn request_in(received: Seq<u8>) -> Result<crate::dto::RequestView, ExchangeError> {
    if is_complete(received) {
        match value_of_payload::<Request>(received.skip(4)) {
            Ok(v) => Ok(v),
            Err(e) => Err(ExchangeError::Protocol(e)),
        }
    } else {
        Err(ExchangeError::Transport(TransportError::MalformedFrame))
    }
}

/// Ends the reading of a request, as [`read_response`] ends that of a
/// response.
pub fn read_request(reader: FrameDecoder) -> (r: Result<Request, ExchangeError>)
    requires
        reader.wf(),
    ensures
        match request_in(reader@) {
            Ok(v) => r is Ok && r->Ok_0@ == v,
            Err(e) => r is Err && r->Err_0 == e,
        },
{
    match reader.finish() {
        Err(_) => Err(ExchangeError::Transport(TransportError::MalformedFrame)),
        Ok(payload) => match decode_request(payload.as_slice()) {
            Ok(request) => Ok(request),
            Err(e) => Err(ExchangeError::Protocol(e)),
        },
    }
}

/// A request survives the exchange: whenever `serde_json` reads back the
/// document that it has written, the frame that is written for a request is
/// header and payload, and what is read from that frame is the request
/// itself, with its command and every argument as they were.
pub proof fn lemma_request_survives(v: crate::dto::RequestView, payload: Seq<u8>)
    ensures
        payload_of::<Request>(v) == Some(payload) && payload.len() <= MAX_PAYLOAD && parsed_text(
            payload,
        ) == Some(Request::encoding(v)) ==> framed::<Request>(v) == Ok::<Seq<u8>, ExchangeError>(
            frame_of(payload),
        ) && request_in(frame_of(payload)) == Ok::<crate::dto::RequestView, ExchangeError>(v),
{
    if payload.len() <= MAX_PAYLOAD {
        lemma_frame_then_rest(payload, Seq::<u8>::empty());
        lemma_payload_round_trip::<Request>(v, payload);
    }
}

/// A response survives the exchange as a request does, provided that its
/// content, if it has any, is not written as `null`.
pub proof fn lemma_response_survives<T: Wire>(v: ResponseView<T::V>, payload: Seq<u8>)
    requires
        v.content matches Some(c) ==> !(T::encoding(c) is Null),
    ensures
        printed_value(response_encoding::<T>(v)) == Some(payload) && payload.len() <= MAX_PAYLOAD
            && parsed_text(payload) == Some(response_encoding::<T>(v)) ==> framed_response::<T>(v)
            == Ok::<Seq<u8>, ExchangeError>(frame_of(payload)) && response_in::<T>(
            frame_of(payload),
        ) == Ok::<ResponseView<T::V>, ExchangeError>(v),
{
    if payload.len() <= MAX_PAYLOAD {
        lemma_frame_then_rest(payload, Seq::<u8>::empty());
        lemma_response_payload_round_trip::<T>(v, payload);
    }
}

} // verus!
