//! The boat's pins, configured, written, read and reset through the server.

use vstd::prelude::*;
use crate::remote::controller::RemoteController;
use crate::remote::net::{discard_data, parse_response, reply_view, interpret, HttpRequest, Method, RawResponse, RemoteError, RemoteErrorView};
use crate::remote::protocol::RemoteGPIO;

verus! {

/// The server path that configures a pin.
pub open spec fn config_path() -> Seq<char> {
    "/gpio/config"@
}

/// The server path that sets a pin's value.
pub open spec fn set_path() -> Seq<char> {
    "/gpio/set"@
}

/// The server path that reads a pin.
pub open spec fn read_path() -> Seq<char> {
    "/gpio/read"@
}

/// The server path that resets every pin.
pub open spec fn reset_path() -> Seq<char> {
    "/gpio/reset"@
}

/// Whether an acknowledgement means success: the interpretation of the raw
/// response, with its data dropped.
pub open spec fn acknowledged(raw: RawResponse<bool>) -> Result<(), RemoteErrorView> {
    match interpret(raw) {
        Ok(_) => Ok(()),
        Err(e) => Err(e),
    }
}

/// The view of an acknowledgement.
pub open spec fn ack_view(r: Result<(), RemoteError>) -> Result<(), RemoteErrorView> {
    match r {
        Ok(()) => Ok(()),
        Err(e) => Err(e@),
    }
}

/// A configure, set or reset request is acknowledged only where the
/// server's envelope says `ok` is true: no connection is a connection error
/// and an undecodable body a parse error, each with its message, and any
/// other envelope is an error of the server.
pub proof fn law_acknowledgement_needs_ok(raw: RawResponse<bool>)
    ensures
        acknowledged(raw) is Ok <==> (raw is Received && raw->Received_0.ok == Some(true)),
        raw is ConnectionFailed ==> acknowledged(raw)
            == Err::<(), RemoteErrorView>(RemoteErrorView::ConnectionError(raw->ConnectionFailed_0@)),
        raw is Malformed ==> acknowledged(raw)
            == Err::<(), RemoteErrorView>(RemoteErrorView::ParseError(raw->Malformed_0@)),
        raw is Received && raw->Received_0.ok != Some(true) ==> acknowledged(raw)->Err_0 is RemoteError,
{
}

impl RemoteController {
    /// The POST request that configures `gpio`'s pin in `gpio`'s mode.
    pub fn gpio_config_request(&self, gpio: &RemoteGPIO) -> (req: HttpRequest)
        ensures
            req.method == Method::Post,
            req.url@ == self.net.address@ + config_path(),
            req.body == Some(*gpio),
    {
        self.net.post_request("/gpio/config", *gpio)
    }

    /// The POST request that sets `gpio`'s pin to `gpio`'s value.
    pub fn gpio_set_request(&self, gpio: &RemoteGPIO) -> (req: HttpRequest)
        ensures
            req.method == Method::Post,
            req.url@ == self.net.address@ + set_path(),
            req.body == Some(*gpio),
    {
        self.net.post_request("/gpio/set", *gpio)
    }

    /// The POST request that reads `gpio`'s pin.
    pub fn gpio_read_request(&self, gpio: &RemoteGPIO) -> (req: HttpRequest)
        ensures
            req.method == Method::Post,
            req.url@ == self.net.address@ + read_path(),
            req.body == Some(*gpio),
    {
        self.net.post_request("/gpio/read", *gpio)
    }

    /// The GET request that resets every pin.
    pub fn gpio_reset_request(&self) -> (req: HttpRequest)
        ensures
            req.method == Method::Get,
            req.url@ == self.net.address@ + reset_path(),
            req.body is None,
    {
        self.net.get_request("/gpio/reset")
    }

    /// The outcome of a configure, set or reset request: the server answers
    /// with a flag that is not looked at, only whether it succeeded.
    pub fn gpio_acknowledgement(raw: RawResponse<bool>) -> (r: Result<(), RemoteError>)
        ensures
            ack_view(r) == acknowledged(raw),
            raw is ConnectionFailed ==> r is Err && r->Err_0@ == RemoteErrorView::ConnectionError(raw->ConnectionFailed_0@),
            raw is Malformed ==> r is Err && r->Err_0@ == RemoteErrorView::ParseError(raw->Malformed_0@),
            r is Ok <==> (raw is Received && raw->Received_0.ok == Some(true)),
    {
        discard_data(parse_response(raw))
    }

    /// The outcome of a read request: the pin as the server reports it.
    pub fn gpio_read_reply(raw: RawResponse<RemoteGPIO>) -> (r: Result<Option<RemoteGPIO>, RemoteError>)
        ensures
            reply_view(r) == interpret(raw),
            raw is ConnectionFailed ==> r is Err && r->Err_0@ == RemoteErrorView::ConnectionError(raw->ConnectionFailed_0@),
            raw is Malformed ==> r is Err && r->Err_0@ == RemoteErrorView::ParseError(raw->Malformed_0@),
            r is Ok <==> (raw is Received && raw->Received_0.ok == Some(true)),
            r is Ok ==> r == Ok::<Option<RemoteGPIO>, RemoteError>(raw->Received_0.data),
    {
        parse_response(raw)
    }
}

} // verus!
