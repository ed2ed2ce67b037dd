//! The session protocol: a session cookie in a header, a CSRF token that
//! the service hands out on request, and one request that uploads the image.

use super::errors::{ErrorView, RobloxApiError};
use super::{CreatorType, ImageData};
use crate::header::{
    copy_header, expose, header_bytes, header_legal, header_value, hide_header, Secret,
};
use crate::http::{
    is_success, status_is_success, Action, ActionView, Body, BodyView, Event, EventView, Header,
    HeaderView, Method, Param, Request, RequestView, Response, ResponseView,
};
use crate::json::{parsed_json, read_json, Json};
use crate::text::{contains_bytes, decimal, find_bytes, to_decimal};
use reqwest::header::HeaderValue;
use vstd::prelude::*;
use vstd::string::StringExecFns;
use vstd::utf8::encode_utf8;

verus! {

/// An image with what the upload request says of it.
#[derive(Debug)]
pub struct ImageUploadData {
    pub image_data: Vec<u8>,
    pub name: String,
    pub description: String,
    pub group_id: Option<u64>,
}

/// What the service reports of an uploaded image.
#[derive(Debug, Clone, Copy, PartialEq, Eq, Structural)]
pub struct UploadResponse {
    pub asset_id: u64,
    pub backing_asset_id: Option<u64>,
}

/// Where an upload stands.
#[derive(Debug, Clone, Copy, PartialEq, Eq, Structural)]
pub enum Phase {
    /// No upload was started.
    Idle,
    /// The request for a CSRF token is out.
    EnsuringCsrf,
    /// The upload request is out.
    Uploading,
    /// Waiting before the image is sent again after a moderation verdict.
    RetryingModeration,
    /// The upload is over.
    Finished,
}

/// A client of the session protocol: the cookie, the CSRF token once the
/// service has given one, and where the upload stands.
pub struct RobloxApiClient {
    cookie: Secret,
    csrf_token: Option<HeaderValue>,
    phase: Phase,
    job: ImageUploadData,
    retry_moderation: bool,
    rejections: u32,
    csrf_retried: bool,
}

/// The content of a [`RobloxApiClient`].
#[verifier::ext_equal]
pub struct ClientView {
    /// The text of the session cookie.
    pub cookie: Seq<char>,
    /// The bytes of the CSRF token that the client holds.
    pub csrf_token: Option<Seq<u8>>,
    pub phase: Phase,
    pub image: Seq<u8>,
    pub name: Seq<char>,
    pub description: Seq<char>,
    pub group_id: Option<u64>,
    /// Whether the image is sent again after a moderation verdict.
    pub retry_moderation: bool,
    /// How many moderation verdicts this upload has met.
    pub rejections: u32,
    /// Whether the request that is out was already sent again with a new
    /// CSRF token.
    pub csrf_retried: bool,
}

impl View for RobloxApiClient {
    type V = ClientView;

    closed spec fn view(&self) -> ClientView {
        ClientView {
            cookie: self.cookie@,
            csrf_token: match self.csrf_token {
                Some(t) => Some(header_bytes(t)),
                None => None,
            },
            phase: self.phase,
            image: self.job.image_data@,
            name: self.job.name@,
            description: self.job.description@,
            group_id: self.job.group_id,
            retry_moderation: self.retry_moderation,
            rejections: self.rejections,
            csrf_retried: self.csrf_retried,
        }
    }
}

/// How often an image is sent again after a moderation verdict.
pub open spec fn moderation_retries() -> u32 {
    4
}

/// The wait before an image is sent again after a moderation verdict.
pub open spec fn moderation_wait_ms() -> u64 {
    5_000
}

/// The text of the `Cookie` header for a session cookie.
pub open spec fn cookie_text(cookie: Seq<char>) -> Seq<char> {
    ".ROBLOSECURITY="@ + cookie
}

/// The `Cookie` header for a session cookie. It is marked as sensitive.
pub open spec fn cookie_header(cookie: Seq<char>) -> HeaderView {
    HeaderView { name: "Cookie"@, value: encode_utf8(cookie_text(cookie)), sensitive: true }
}

/// The headers of an upload request. The cookie and the CSRF token are
/// marked as sensitive.
pub open spec fn upload_headers(cookie: Seq<char>, csrf_token: Option<Seq<u8>>) -> Seq<HeaderView> {
    let first = seq![cookie_header(cookie)];
    let token = match csrf_token {
        Some(t) => seq![HeaderView { name: "X-CSRF-Token"@, value: t, sensitive: true }],
        None => Seq::empty(),
    };
    first + token + seq![
        HeaderView { name: "Requester"@, value: encode_utf8("Client"@), sensitive: false },
        HeaderView { name: "Content-Type"@, value: encode_utf8("*/*"@), sensitive: false },
    ]
}

/// The query of an upload request.
pub open spec fn upload_query(name: Seq<char>, description: Seq<char>, group_id: Option<u64>) -> Seq<
    (Seq<char>, Seq<char>),
> {
    let fixed = seq![("assetTypeId"@, "13"@), ("name"@, name), ("description"@, description)];
    match group_id {
        Some(id) => fixed.push(("groupId"@, decimal(id as nat))),
        None => fixed,
    }
}

/// The request that asks the service for a CSRF token: a `POST` without a
/// body, which the service refuses and answers with a token.
pub open spec fn challenge_request(cookie: Seq<char>) -> RequestView {
    RequestView {
        method: Method::Post,
        url: "https://auth.roblox.com/v2/logout"@,
        query: Seq::empty(),
        headers: seq![cookie_header(cookie)],
        body: BodyView::Empty,
    }
}

/// The request that uploads the image.
pub open spec fn upload_request(s: ClientView) -> RequestView {
    RequestView {
        method: Method::Post,
        url: "https://data.roblox.com/data/upload/json"@,
        query: upload_query(s.name, s.description, s.group_id),
        headers: upload_headers(s.cookie, s.csrf_token),
        body: BodyView::Bytes(s.image),
    }
}

/// Whether the cookie may stand in a header.
pub open spec fn cookie_legal(cookie: Seq<char>) -> bool {
    header_legal(encode_utf8(cookie_text(cookie)))
}

/// The asset that a reply to the upload request shows: its `AssetId`, which
/// is a number above zero, and its `BackingAssetId` where that is a number.
pub open spec fn upload_response(doc: Option<Json>) -> Option<UploadResponse> {
    match doc {
        Some(d) => match d.field("AssetId"@) {
            Some(id) => match id.number() {
                Some(n) => if n > 0 {
                    Some(
                        UploadResponse {
                            asset_id: n,
                            backing_asset_id: match d.field("BackingAssetId"@) {
                                Some(b) => b.number(),
                                None => None,
                            },
                        },
                    )
                } else {
                    None
                },
                None => None,
            },
            None => None,
        },
        None => None,
    }
}

/// Whether a document says `Moderated: true`.
pub open spec fn moderated_flag(doc: Option<Json>) -> bool {
    match doc {
        Some(d) => match d.field("Moderated"@) {
            Some(m) => m.flag() == Some(true),
            None => false,
        },
        None => false,
    }
}

/// Whether moderation has turned the image down. Such a reply reports
/// success and says `Moderated: true`, or it has status 400 and a body that
/// holds `image failed moderation`.
pub open spec fn moderated(r: ResponseView) -> bool {
    (is_success(r.status) && moderated_flag(parsed_json(r.body))) || (r.status == 400
        && contains_bytes(encode_utf8(r.body), encode_utf8("image failed moderation"@)))
}

/// A client that has not started an upload and holds no CSRF token.
pub open spec fn idle(cookie: Seq<char>) -> ClientView {
    ClientView {
        cookie,
        csrf_token: None,
        phase: Phase::Idle,
        image: Seq::empty(),
        name: Seq::empty(),
        description: Seq::empty(),
        group_id: None,
        retry_moderation: false,
        rejections: 0,
        csrf_retried: false,
    }
}

/// The upload fails with `error`.
pub open spec fn failed(s: ClientView, error: ErrorView) -> (ClientView, ActionView) {
    (ClientView { phase: Phase::Finished, ..s }, ActionView::Fail(error))
}

/// The client sends the image.
pub open spec fn uploading(s: ClientView) -> (ClientView, ActionView) {
    if cookie_legal(s.cookie) {
        (ClientView { phase: Phase::Uploading, ..s }, ActionView::Send(upload_request(s)))
    } else {
        failed(s, ErrorView::InvalidHeader)
    }
}

/// The start of an upload: a client that holds no CSRF token asks for one
/// first.
pub open spec fn begun(
    s: ClientView,
    image: Seq<u8>,
    name: Seq<char>,
    description: Seq<char>,
    group_id: Option<u64>,
    retry_moderation: bool,
) -> (ClientView, ActionView) {
    let fresh = ClientView {
        image,
        name,
        description,
        group_id,
        retry_moderation,
        rejections: 0,
        csrf_retried: false,
        ..s
    };
    if !cookie_legal(s.cookie) {
        failed(fresh, ErrorView::InvalidHeader)
    } else if s.csrf_token is None {
        (
            ClientView { phase: Phase::EnsuringCsrf, ..fresh },
            ActionView::Send(challenge_request(s.cookie)),
        )
    } else {
        uploading(fresh)
    }
}

/// What follows the reply to the request for a CSRF token.
pub open spec fn after_challenge(s: ClientView, r: ResponseView) -> (ClientView, ActionView) {
    match r.csrf_token {
        Some(t) => uploading(ClientView { csrf_token: Some(t), ..s }),
        None => failed(s, ErrorView::MissingCsrfToken),
    }
}

/// What follows the reply to an upload request.
pub open spec fn after_upload(s: ClientView, r: ResponseView) -> (ClientView, ActionView) {
    if r.status == 403 && r.csrf_token is Some && !s.csrf_retried {
        uploading(ClientView { csrf_token: r.csrf_token, csrf_retried: true, ..s })
    } else if moderated(r) {
        if s.retry_moderation && s.rejections < moderation_retries() {
            (
                ClientView {
                    phase: Phase::RetryingModeration,
                    rejections: (s.rejections + 1) as u32,
                    ..s
                },
                ActionView::Wait(moderation_wait_ms()),
            )
        } else {
            failed(s, ErrorView::ApiError { message: "moderation"@ })
        }
    } else if is_success(r.status) {
        match upload_response(parsed_json(r.body)) {
            Some(done) => (ClientView { phase: Phase::Finished, ..s }, ActionView::Done(done.asset_id)),
            None => failed(s, ErrorView::BadResponseJson { body: r.body }),
        }
    } else {
        failed(s, ErrorView::ResponseError { status: r.status, body: r.body })
    }
}

/// The step of the session protocol: from where the upload stands and what
/// happened to where it stands then and what to do next.
pub open spec fn next(s: ClientView, event: EventView) -> (ClientView, ActionView) {
    match event {
        EventView::Response(r) => if s.phase == Phase::EnsuringCsrf {
            after_challenge(s, r)
        } else if s.phase == Phase::Uploading {
            after_upload(s, r)
        } else {
            failed(s, ErrorView::ApiError { message: "unexpected event"@ })
        },
        EventView::TransportFailure => if s.phase == Phase::EnsuringCsrf || s.phase == Phase::Uploading {
            failed(s, ErrorView::Transport)
        } else {
            failed(s, ErrorView::ApiError { message: "unexpected event"@ })
        },
        EventView::Waited => if s.phase == Phase::RetryingModeration {
            uploading(ClientView { csrf_retried: false, ..s })
        } else {
            failed(s, ErrorView::ApiError { message: "unexpected event"@ })
        },
    }
}

/// An upload never ends with the asset id 0.
pub proof fn lemma_done_is_positive(s: ClientView, event: EventView)
    ensures
        next(s, event).1 matches ActionView::Done(id) ==> id > 0,
{
}

/// What an error says does not depend on the session cookie: two clients
/// that differ in nothing but their cookies fail, where both fail, with the
/// same error.
pub proof fn lemma_error_ignores_cookie(a: ClientView, b: ClientView, event: EventView)
    requires
        a == (ClientView { cookie: a.cookie, ..b }),
    ensures
        next(a, event).1 matches ActionView::Fail(x) ==> (next(b, event).1 matches ActionView::Fail(y) ==> x
            == y),
{
}

/// The same holds at the start of an upload.
pub proof fn lemma_first_error_ignores_cookie(
    a: ClientView,
    b: ClientView,
    image: Seq<u8>,
    name: Seq<char>,
    description: Seq<char>,
    group_id: Option<u64>,
    retry_moderation: bool,
)
    requires
        a == (ClientView { cookie: a.cookie, ..b }),
    ensures
        begun(a, image, name, description, group_id, retry_moderation).1 matches ActionView::Fail(x) ==> (begun(
            b,
            image,
            name,
            description,
            group_id,
            retry_moderation,
        ).1 matches ActionView::Fail(y) ==> x == y),
{
}

/// An image that moderation turns down is sent again after five seconds,
/// where the upload was started for that, until moderation has turned it
/// down five times: then the upload fails.
pub proof fn lemma_moderation_policy(s: ClientView, r: ResponseView)
    requires
        s.phase == Phase::Uploading,
        moderated(r),
        !(r.status == 403 && r.csrf_token is Some && !s.csrf_retried),
    ensures
        s.retry_moderation && s.rejections < 4 ==> next(s, EventView::Response(r)).1 == ActionView::Wait(5_000)
            && next(s, EventView::Response(r)).0.rejections == s.rejections + 1 && next(
            s,
            EventView::Response(r),
        ).0.phase == Phase::RetryingModeration,
        !s.retry_moderation || s.rejections >= 4 ==> next(s, EventView::Response(r)) == failed(
            s,
            ErrorView::ApiError { message: "moderation"@ },
        ),
{
}

/// Moderation turns an image down five times at most before the upload
/// ends.
pub proof fn lemma_rejections_are_bounded(s: ClientView, event: EventView)
    requires
        s.rejections <= moderation_retries(),
    ensures
        next(s, event).0.rejections <= moderation_retries(),
{
}

/// A reply without a CSRF token to the request for one ends the upload with
/// `MissingCsrfToken`: nothing is sent again.
pub proof fn lemma_challenge_without_token(s: ClientView, r: ResponseView)
    requires
        s.phase == Phase::EnsuringCsrf,
        r.csrf_token is None,
    ensures
        next(s, EventView::Response(r)) == failed(s, ErrorView::MissingCsrfToken),
{
}

/// A reply 403 with a CSRF token to an upload request has the request sent
/// again with that token, once: the same reply to the request that was sent
/// again ends the upload.
pub proof fn lemma_one_csrf_retry(s: ClientView, r: ResponseView)
    requires
        s.phase == Phase::Uploading,
        !s.csrf_retried,
        cookie_legal(s.cookie),
        r.status == 403,
        r.csrf_token is Some,
    ensures
        next(s, EventView::Response(r)).1 == ActionView::Send(
            upload_request(ClientView { csrf_token: r.csrf_token, csrf_retried: true, ..s }),
        ),
        next(s, EventView::Response(r)).0.phase == Phase::Uploading,
        next(next(s, EventView::Response(r)).0, EventView::Response(r)).1 is Fail,
{
}

impl ImageUploadData {
    /// An image with its description as the upload request gives it: the
    /// id of the creator goes along where the creator is a group.
    pub fn from(image: Vec<u8>, data: ImageData) -> (upload: ImageUploadData)
        ensures
            upload.image_data@ == image@,
            upload.name@ == data.name@,
            upload.description@ == data.description@,
            upload.group_id == (match data.creator.creator_type {
                CreatorType::Group => Some(data.creator.creator_id),
                CreatorType::User => None,
            }),
    {
        ImageUploadData {
            image_data: image,
            name: data.name.to_owned(),
            description: data.description.to_owned(),
            group_id: match data.creator.creator_type {
                CreatorType::Group => Some(data.creator.creator_id),
                CreatorType::User => None,
            },
        }
    }
}

/// Reads the asset that a reply to the upload request shows.
pub fn read_upload_response(doc: &Option<Json>) -> (r: Option<UploadResponse>)
    ensures
        r == upload_response(*doc),
{
    match doc {
        Some(d) => {
            let id = match d.get("AssetId") {
                Some(id) => id.as_number(),
                None => None,
            };
            let backing = match d.get("BackingAssetId") {
                Some(b) => b.as_number(),
                None => None,
            };
            match id {
                Some(n) => if n > 0 {
                    Some(UploadResponse { asset_id: n, backing_asset_id: backing })
                } else {
                    None
                },
                None => None,
            }
        },
        None => None,
    }
}

/// Tells whether a document says `Moderated: true`.
pub fn read_moderated_flag(doc: &Option<Json>) -> (flag: bool)
    ensures
        flag == moderated_flag(*doc),
{
    match doc {
        Some(d) => match d.get("Moderated") {
            Some(m) => match m.as_flag() {
                Some(b) => b,
                None => false,
            },
            None => false,
        },
        None => false,
    }
}

proof fn lemma_fixed_headers_legal()
    ensures
        header_legal(encode_utf8("Client"@)),
        header_legal(encode_utf8("*/*"@)),
{
    reveal_strlit("Client");
    reveal_strlit("*/*");
    vstd::utf8::is_ascii_chars_encode_utf8("Client"@);
    vstd::utf8::is_ascii_chars_encode_utf8("*/*"@);
}

impl RobloxApiClient {
    /// A client that will authenticate with the session cookie `cookie`.
    pub fn new(cookie: Secret) -> (client: RobloxApiClient)
        ensures
            client@ == idle(cookie@),
    {
        RobloxApiClient {
            cookie,
            csrf_token: None,
            phase: Phase::Idle,
            job: ImageUploadData {
                image_data: Vec::new(),
                name: String::new(),
                description: String::new(),
                group_id: None,
            },
            retry_moderation: false,
            rejections: 0,
            csrf_retried: false,
        }
    }

    /// The name of the client, for a log. It says nothing of what the
    /// client holds.
    pub fn describe(&self) -> (text: String)
        ensures
            text@ == "RobloxApiClient"@,
    {
        "RobloxApiClient".to_owned()
    }

    /// Where the upload stands.
    pub fn phase(&self) -> (phase: Phase)
        ensures
            phase == self@.phase,
    {
        self.phase
    }

    /// The `Cookie` header, where the cookie may stand in one.
    fn cookie_header(&self) -> (header: Option<Header>)
        ensures
            header is Some <==> cookie_legal(self@.cookie),
            header matches Some(h) ==> h@ == cookie_header(self@.cookie),
    {
        let mut text = ".ROBLOSECURITY=".to_owned();
        text.append(expose(&self.cookie));
        match header_value(text.as_str()) {
            Some(value) => Some(Header { name: "Cookie".to_owned(), value: hide_header(value) }),
            None => None,
        }
    }

    fn fail(&mut self, error: RobloxApiError) -> (action: Action)
        ensures
            final(self)@ == failed(old(self)@, error@).0,
            action@ == failed(old(self)@, error@).1,
    {
        self.phase = Phase::Finished;
        Action::Fail(error)
    }

    fn query(&self) -> (query: Vec<Param>)
        ensures
            query@.map_values(|p: Param| (p.name@, p.value@)) == upload_query(
                self@.name,
                self@.description,
                self@.group_id,
            ),
    {
        let mut query = vec![
            Param { name: "assetTypeId".to_owned(), value: "13".to_owned() },
            Param { name: "name".to_owned(), value: self.job.name.clone() },
            Param { name: "description".to_owned(), value: self.job.description.clone() },
        ];
        match self.job.group_id {
            Some(id) => {
                query.push(Param { name: "groupId".to_owned(), value: to_decimal(id) });
            },
            None => {},
        }
        assert(query@.map_values(|p: Param| (p.name@, p.value@)) =~~= upload_query(
            self@.name,
            self@.description,
            self@.group_id,
        ));
        query
    }

    fn upload(&mut self) -> (action: Action)
        ensures
            final(self)@ == uploading(old(self)@).0,
            action@ == uploading(old(self)@).1,
    {
        let cookie = match self.cookie_header() {
            Some(header) => header,
            None => {
                return self.fail(RobloxApiError::InvalidHeader);
            },
        };
        proof {
            lemma_fixed_headers_legal();
        }
        let requester = match header_value("Client") {
            Some(value) => Header { name: "Requester".to_owned(), value },
            None => {
                return self.fail(RobloxApiError::InvalidHeader);
            },
        };
        let content_type = match header_value("*/*") {
            Some(value) => Header { name: "Content-Type".to_owned(), value },
            None => {
                return self.fail(RobloxApiError::InvalidHeader);
            },
        };
        let mut headers: Vec<Header> = vec![cookie];
        match &self.csrf_token {
            Some(token) => {
                headers.push(
                    Header { name: "X-CSRF-Token".to_owned(), value: hide_header(copy_header(token)) },
                );
            },
            None => {},
        }
        headers.push(requester);
        headers.push(content_type);
        assert(headers@.map_values(|h: Header| h@) =~~= upload_headers(
            self@.cookie,
            self@.csrf_token,
        ));
        let request = Request {
            method: Method::Post,
            url: "https://data.roblox.com/data/upload/json".to_owned(),
            query: self.query(),
            headers,
            body: Body::Bytes(self.job.image_data.clone()),
        };
        self.phase = Phase::Uploading;
        assert(request@ =~~= upload_request(old(self)@));
        Action::Send(request)
    }

    fn begin(&mut self, data: ImageUploadData, retry_moderation: bool) -> (action: Action)
        ensures
            final(self)@ == begun(
                old(self)@,
                data.image_data@,
                data.name@,
                data.description@,
                data.group_id,
                retry_moderation,
            ).0,
            action@ == begun(
                old(self)@,
                data.image_data@,
                data.name@,
                data.description@,
                data.group_id,
                retry_moderation,
            ).1,
    {
        self.job = data;
        self.retry_moderation = retry_moderation;
        self.rejections = 0;
        self.csrf_retried = false;
        if self.csrf_token.is_some() {
            return self.upload();
        }
        match self.cookie_header() {
            Some(cookie) => {
                self.phase = Phase::EnsuringCsrf;
                let request = Request {
                    method: Method::Post,
                    url: "https://auth.roblox.com/v2/logout".to_owned(),
                    query: Vec::new(),
                    headers: vec![cookie],
                    body: Body::Empty,
                };
                assert(request@ =~~= challenge_request(old(self)@.cookie));
                Action::Send(request)
            },
            None => self.fail(RobloxApiError::InvalidHeader),
        }
    }

    /// Starts the upload of an image. A moderation verdict ends the upload.
    pub fn upload_image(&mut self, data: ImageUploadData) -> (action: Action)
        ensures
            final(self)@ == begun(
                old(self)@,
                data.image_data@,
                data.name@,
                data.description@,
                data.group_id,
                false,
            ).0,
            action@ == begun(
                old(self)@,
                data.image_data@,
                data.name@,
                data.description@,
                data.group_id,
                false,
            ).1,
    {
        self.begin(data, false)
    }

    /// Starts the upload of an image that is sent again, up to four times
    /// and after a wait of five seconds each, when the service answers with
    /// a moderation verdict.
    pub fn upload_image_with_moderation_retry(&mut self, data: ImageUploadData) -> (action: Action)
        ensures
            final(self)@ == begun(
                old(self)@,
                data.image_data@,
                data.name@,
                data.description@,
                data.group_id,
                true,
            ).0,
            action@ == begun(
                old(self)@,
                data.image_data@,
                data.name@,
                data.description@,
                data.group_id,
                true,
            ).1,
    {
        self.begin(data, true)
    }

    /// Takes the upload one step further: `event` is what became of the last
    /// action.
    pub fn advance(&mut self, event: Event) -> (action: Action)
        ensures
            final(self)@ == next(old(self)@, event@).0,
            action@ == next(old(self)@, event@).1,
    {
        match event {
            Event::Response(reply) => {
                if self.phase == Phase::EnsuringCsrf {
                    match reply.csrf_token {
                        Some(token) => {
                            self.csrf_token = Some(token);
                            self.upload()
                        },
                        None => self.fail(RobloxApiError::MissingCsrfToken),
                    }
                } else if self.phase == Phase::Uploading {
                    self.on_upload(reply)
                } else {
                    self.fail(RobloxApiError::ApiError { message: "unexpected event".to_owned() })
                }
            },
            Event::TransportFailure => {
                if self.phase == Phase::EnsuringCsrf || self.phase == Phase::Uploading {
                    self.fail(RobloxApiError::Transport)
                } else {
                    self.fail(RobloxApiError::ApiError { message: "unexpected event".to_owned() })
                }
            },
            Event::Waited => {
                if self.phase == Phase::RetryingModeration {
                    self.csrf_retried = false;
                    self.upload()
                } else {
                    self.fail(RobloxApiError::ApiError { message: "unexpected event".to_owned() })
                }
            },
        }
    }

    fn on_upload(&mut self, reply: Response) -> (action: Action)
        ensures
            final(self)@ == after_upload(old(self)@, reply@).0,
            action@ == after_upload(old(self)@, reply@).1,
    {
        if reply.status == 403 && reply.csrf_token.is_some() && !self.csrf_retried {
            self.csrf_token = reply.csrf_token;
            self.csrf_retried = true;
            return self.upload();
        }
        let success = status_is_success(reply.status);
        let doc = if success {
            read_json(reply.body.as_str())
        } else {
            None
        };
        let verdict = (success && read_moderated_flag(&doc)) || (reply.status == 400 && find_bytes(
            reply.body.as_str().as_bytes(),
            "image failed moderation".as_bytes(),
        ));
        if verdict {
            if self.retry_moderation && self.rejections < 4 {
                self.phase = Phase::RetryingModeration;
                self.rejections = self.rejections + 1;
                Action::Wait(5_000)
            } else {
                self.fail(RobloxApiError::ApiError { message: "moderation".to_owned() })
            }
        } else if success {
            match read_upload_response(&doc) {
                Some(done) => {
                    self.phase = Phase::Finished;
                    Action::Done(done.asset_id)
                },
                None => self.fail(RobloxApiError::BadResponseJson { body: reply.body }),
            }
        } else {
            self.fail(RobloxApiError::ResponseError { status: reply.status, body: reply.body })
        }
    }
}

} // verus!
