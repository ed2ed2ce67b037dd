//! The words in which the upload protocols speak to whoever carries their
//! requests: what to send, what came back, what to do next.

use crate::api::errors::{ErrorView, RobloxApiError};
use crate::header::{header_bytes, header_sensitive};
use reqwest::header::HeaderValue;
use vstd::prelude::*;

verus! {

/// The two request methods that the protocols use.
#[derive(Debug, Clone, Copy, PartialEq, Eq, Structural)]
pub enum Method {
    Get,
    Post,
}

/// One header of a request. A value that carries a credential or a token
/// is marked as sensitive, which keeps it out of debug output.
#[derive(Debug)]
pub struct Header {
    pub name: String,
    pub value: HeaderValue,
}

/// The content of a [`Header`].
#[verifier::ext_equal]
pub struct HeaderView {
    pub name: Seq<char>,
    pub value: Seq<u8>,
    pub sensitive: bool,
}

impl View for Header {
    type V = HeaderView;

    open spec fn view(&self) -> HeaderView {
        HeaderView {
            name: self.name@,
            value: header_bytes(self.value),
            sensitive: header_sensitive(self.value),
        }
    }
}

/// One parameter of a request's query.
#[derive(Debug)]
pub struct Param {
    pub name: String,
    pub value: String,
}

/// What one part of a multipart body holds.
#[derive(Debug)]
pub enum PartContent {
    Bytes(Vec<u8>),
    Text(String),
}

/// One named part of a multipart body.
#[derive(Debug)]
pub struct Part {
    pub name: String,
    pub content: PartContent,
}

/// The body of a request.
#[derive(Debug)]
pub enum Body {
    Empty,
    Bytes(Vec<u8>),
    Multipart(Vec<Part>),
}

/// A request for the carrier to send. The query parameters are given apart
/// from the address, in the order in which they are to be appended.
#[derive(Debug)]
pub struct Request {
    pub method: Method,
    pub url: String,
    pub query: Vec<Param>,
    pub headers: Vec<Header>,
    pub body: Body,
}

/// How the carrier is to send the requests of one client.
#[derive(Debug, Clone, Copy, PartialEq, Eq, Structural)]
pub struct Transport {
    /// The time after which a request that was not answered has failed.
    pub timeout_ms: u64,
    /// Whether a redirect is followed. A redirect may lead to a host that
    /// does not get the cookie, so a client with a cookie follows none.
    pub follow_redirects: bool,
}

/// What the service answered: the status, the `X-CSRF-Token` header where
/// the answer has one, and the body as text.
#[derive(Debug)]
pub struct Response {
    pub status: u16,
    pub csrf_token: Option<HeaderValue>,
    pub body: String,
}

/// What happened to the last thing that the protocol asked for.
#[derive(Debug)]
pub enum Event {
    /// The request was answered.
    Response(Response),
    /// The request failed on the way.
    TransportFailure,
    /// The wait is over.
    Waited,
}

/// What the protocol asks the carrier to do next.
#[derive(Debug)]
pub enum Action {
    /// Send this request and come back with the answer.
    Send(Request),
    /// Wait this many milliseconds and come back.
    Wait(u64),
    /// The upload is done: this is the asset's id.
    Done(u64),
    /// The upload has failed.
    Fail(RobloxApiError),
}

/// The content of a [`PartContent`].
#[verifier::ext_equal]
pub enum PartView {
    Bytes(Seq<u8>),
    Text(Seq<char>),
}

/// The content of a [`Body`]: its parts by name.
#[verifier::ext_equal]
pub enum BodyView {
    Empty,
    Bytes(Seq<u8>),
    Multipart(Seq<(Seq<char>, PartView)>),
}

/// The content of a [`Request`]: its headers, and its parameters by name
/// and value.
#[verifier::ext_equal]
pub struct RequestView {
    pub method: Method,
    pub url: Seq<char>,
    pub query: Seq<(Seq<char>, Seq<char>)>,
    pub headers: Seq<HeaderView>,
    pub body: BodyView,
}

/// The content of a [`Response`].
#[verifier::ext_equal]
pub struct ResponseView {
    pub status: u16,
    pub csrf_token: Option<Seq<u8>>,
    pub body: Seq<char>,
}

/// The content of an [`Event`].
#[verifier::ext_equal]
pub enum EventView {
    Response(ResponseView),
    TransportFailure,
    Waited,
}

/// The content of an [`Action`].
#[verifier::ext_equal]
pub enum ActionView {
    Send(RequestView),
    Wait(u64),
    Done(u64),
    Fail(ErrorView),
}

impl View for PartContent {
    type V = PartView;

    open spec fn view(&self) -> PartView {
        match self {
            PartContent::Bytes(b) => PartView::Bytes(b@),
            PartContent::Text(t) => PartView::Text(t@),
        }
    }
}

impl View for Body {
    type V = BodyView;

    open spec fn view(&self) -> BodyView {
        match self {
            Body::Empty => BodyView::Empty,
            Body::Bytes(b) => BodyView::Bytes(b@),
            Body::Multipart(parts) => BodyView::Multipart(
                parts@.map_values(|p: Part| (p.name@, p.content@)),
            ),
        }
    }
}

impl View for Request {
    type V = RequestView;

    open spec fn view(&self) -> RequestView {
        RequestView {
            method: self.method,
            url: self.url@,
            query: self.query@.map_values(|p: Param| (p.name@, p.value@)),
            headers: self.headers@.map_values(|h: Header| h@),
            body: self.body@,
        }
    }
}

impl View for Response {
    type V = ResponseView;

    open spec fn view(&self) -> ResponseView {
        ResponseView {
            status: self.status,
            csrf_token: match self.csrf_token {
                Some(t) => Some(header_bytes(t)),
                None => None,
            },
            body: self.body@,
        }
    }
}

impl View for Event {
    type V = EventView;

    open spec fn view(&self) -> EventView {
        match self {
            Event::Response(r) => EventView::Response(r@),
            Event::TransportFailure => EventView::TransportFailure,
            Event::Waited => EventView::Waited,
        }
    }
}

impl View for Action {
    type V = ActionView;

    open spec fn view(&self) -> ActionView {
        match self {
            Action::Send(r) => ActionView::Send(r@),
            Action::Wait(ms) => ActionView::Wait(*ms),
            Action::Done(id) => ActionView::Done(*id),
            Action::Fail(e) => ActionView::Fail(e@),
        }
    }
}

/// The words that an upload itself puts into an `ApiError`.
pub open spec fn fixed_message(message: Seq<char>) -> bool {
    message == "processing failed"@ || message == "timeout"@ || message == "moderation"@ || message
        == "unexpected event"@
}

/// Whether `error` is made of nothing but fixed words and what `event`
/// brought: the status and the body of the answer. No credential has a
/// part in it.
pub open spec fn made_of(event: EventView, error: ErrorView) -> bool {
    match error {
        ErrorView::Transport => event is TransportFailure,
        ErrorView::MissingCsrfToken => event is Response,
        ErrorView::InvalidHeader => true,
        ErrorView::ResponseError { status, body } => event matches EventView::Response(r) && r.status
            == status && r.body == body,
        ErrorView::BadResponseJson { body } => event matches EventView::Response(r) && r.body == body,
        ErrorView::ApiError { message } => fixed_message(message),
        ErrorView::BadRequestJson => false,
        ErrorView::MissingCredential => false,
    }
}

/// A status that reports success: 200 to 299.
pub open spec fn is_success(status: u16) -> bool {
    200 <= status <= 299
}

/// Tells whether a status reports success.
pub fn status_is_success(status: u16) -> (ok: bool)
    ensures
        ok == is_success(status),
{
    200 <= status && status <= 299
}

} // verus!
