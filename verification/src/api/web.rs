//! The cloud protocol: an API key in a header, one request that creates the
//! asset, then requests that ask whether the work behind it is done.

use super::errors::{ErrorView, RobloxApiError};
use super::{Creator, CreatorType, ImageData};
use crate::header::{expose, header_legal, header_value, hide_header, Secret};
use crate::http::{
    is_success, status_is_success, Action, ActionView, Body, BodyView, Event, EventView, Header,
    HeaderView, Method, Part, PartContent, PartView, Request, RequestView, Response, ResponseView,
};
use crate::json::{json_string, parsed_json, read_json, write_json_string, Json};
use crate::text::{decimal, to_decimal};
use vstd::prelude::*;
use vstd::string::StringExecFns;
use vstd::utf8::encode_utf8;

verus! {

/// The kinds of asset that the service takes.
#[derive(Debug, Clone, Copy, PartialEq, Eq, Structural)]
pub enum TargetType {
    Audio,
    Decal,
    ModelFromFbx,
}

/// What the create request says of the asset.
#[derive(Debug, Clone, Copy)]
pub struct CreationContext<'a> {
    pub target_type: TargetType,
    pub asset_name: &'a str,
    pub asset_description: &'a str,
    pub creator: Creator,
}

/// The `request` part of the create request, before it is written as JSON.
#[derive(Debug, Clone, Copy)]
pub struct AssetUploadData<'a> {
    pub creation_context: CreationContext<'a>,
}

/// What the service reports of a finished upload.
#[derive(Debug, Clone, Copy, PartialEq, Eq, Structural)]
pub struct UploadResponse {
    pub asset_id: u64,
    pub asset_version_number: Option<u32>,
}

/// The name of a kind of asset on the wire.
pub open spec fn target_name(target: TargetType) -> Seq<char> {
    match target {
        TargetType::Audio => "Audio"@,
        TargetType::Decal => "Decal"@,
        TargetType::ModelFromFbx => "ModelFromFbx"@,
    }
}

/// The field under which a creator's id is sent.
pub open spec fn creator_key(kind: CreatorType) -> Seq<char> {
    match kind {
        CreatorType::User => "userId"@,
        CreatorType::Group => "groupId"@,
    }
}

/// The JSON document of the create request, given the name and the
/// description as JSON strings.
pub open spec fn framed_request(
    target: TargetType,
    name_json: Seq<char>,
    description_json: Seq<char>,
    creator: Creator,
) -> Seq<char> {
    "{\"assetType\":\""@ + target_name(target) + "\",\"displayName\":"@ + name_json
        + ",\"description\":"@ + description_json + ",\"creationContext\":{\"creator\":{\""@
        + creator_key(creator.creator_type) + "\":"@ + decimal(creator.creator_id as nat) + "}}}"@
}

/// The JSON document of the create request.
pub open spec fn request_json(
    target: TargetType,
    name: Seq<char>,
    description: Seq<char>,
    creator: Creator,
) -> Seq<char> {
    framed_request(target, json_string(name), json_string(description), creator)
}

/// Writes the JSON document of the create request around the name and the
/// description, which are given as JSON strings.
pub fn frame_request(
    target: TargetType,
    name_json: &str,
    description_json: &str,
    creator: Creator,
) -> (text: String)
    ensures
        text@ == framed_request(target, name_json@, description_json@, creator),
{
    let mut text = "{\"assetType\":\"".to_owned();
    match target {
        TargetType::Audio => text.append("Audio"),
        TargetType::Decal => text.append("Decal"),
        TargetType::ModelFromFbx => text.append("ModelFromFbx"),
    }
    text.append("\",\"displayName\":");
    text.append(name_json);
    text.append(",\"description\":");
    text.append(description_json);
    text.append(",\"creationContext\":{\"creator\":{\"");
    match creator.creator_type {
        CreatorType::User => text.append("userId"),
        CreatorType::Group => text.append("groupId"),
    }
    text.append("\":");
    let id = to_decimal(creator.creator_id);
    text.append(id.as_str());
    text.append("}}}");
    text
}

impl<'a> AssetUploadData<'a> {
    /// Describes an image as a decal to create.
    pub fn from(data: ImageData<'a>) -> (upload: AssetUploadData<'a>)
        ensures
            upload.creation_context.target_type == TargetType::Decal,
            upload.creation_context.asset_name@ == data.name@,
            upload.creation_context.asset_description@ == data.description@,
            upload.creation_context.creator == data.creator,
    {
        AssetUploadData {
            creation_context: CreationContext {
                target_type: TargetType::Decal,
                asset_name: data.name,
                asset_description: data.description,
                creator: data.creator,
            },
        }
    }

    /// The JSON document that describes the asset.
    pub open spec fn json(self) -> Seq<char> {
        request_json(
            self.creation_context.target_type,
            self.creation_context.asset_name@,
            self.creation_context.asset_description@,
            self.creation_context.creator,
        )
    }

    /// Writes the description of the asset as JSON. Every name and every
    /// description can be written, so the result is always `Ok`.
    pub fn to_json(&self) -> (r: Result<String, RobloxApiError>)
        ensures
            r matches Ok(text) && text@ == self.json(),
    {
        let name = match write_json_string(self.creation_context.asset_name) {
            Some(quoted) => quoted,
            None => {
                return Err(RobloxApiError::BadRequestJson);
            },
        };
        let description = match write_json_string(self.creation_context.asset_description) {
            Some(quoted) => quoted,
            None => {
                return Err(RobloxApiError::BadRequestJson);
            },
        };
        Ok(
            frame_request(
                self.creation_context.target_type,
                name.as_str(),
                description.as_str(),
                self.creation_context.creator,
            ),
        )
    }
}

/// The JSON document of the create request is the same for the same
/// description of the asset, byte for byte.
pub proof fn lemma_request_json_is_stable(a: AssetUploadData, b: AssetUploadData)
    requires
        a.creation_context.target_type == b.creation_context.target_type,
        a.creation_context.asset_name@ == b.creation_context.asset_name@,
        a.creation_context.asset_description@ == b.creation_context.asset_description@,
        a.creation_context.creator == b.creation_context.creator,
    ensures
        a.json() == b.json(),
        encode_utf8(a.json()) == encode_utf8(b.json()),
{
}

/// Where an upload stands.
#[derive(Debug, Clone, Copy, PartialEq, Eq, Structural)]
pub enum Phase {
    /// No upload was started.
    Idle,
    /// The create request is out.
    Creating,
    /// A request for the state of the operation is out.
    Polling,
    /// Waiting before the operation is asked for again.
    Sleeping,
    /// The upload is over.
    Finished,
}

/// A client of the cloud protocol: the API key, and where the upload stands.
pub struct RobloxApiClient {
    api_key: Secret,
    phase: Phase,
    operation: String,
    started_ms: u64,
    waits: u32,
}

/// The content of a [`RobloxApiClient`].
#[verifier::ext_equal]
pub struct ClientView {
    /// The text of the API key.
    pub api_key: Seq<char>,
    pub phase: Phase,
    /// The path of the operation that is polled.
    pub operation: Seq<char>,
    /// The time at which polling began.
    pub started_ms: u64,
    /// How often the client has waited between polls, up to `u32::MAX`.
    pub waits: u32,
}

impl View for RobloxApiClient {
    type V = ClientView;

    closed spec fn view(&self) -> ClientView {
        ClientView {
            api_key: self.api_key@,
            phase: self.phase,
            operation: self.operation@,
            started_ms: self.started_ms,
            waits: self.waits,
        }
    }
}

/// What a reply to a poll says.
#[derive(Debug, Clone, Copy, PartialEq, Eq, Structural)]
pub enum PollReply {
    /// The reply does not say whether the operation is done.
    Malformed,
    /// The operation is not done yet.
    Pending,
    /// The operation is done and has no asset to show.
    Failed,
    /// The operation is done and has made this asset.
    Finished(UploadResponse),
}

/// All polling ends this long after it began.
pub open spec fn poll_deadline_ms() -> u64 {
    60_000
}

/// The wait before the next poll, after `waits` waits: 500 ms at first,
/// doubled each time, and never more than 4 s.
pub open spec fn backoff_ms(waits: nat) -> u64
    decreases waits,
{
    if waits == 0 {
        500
    } else if 2 * backoff_ms((waits - 1) as nat) >= 4000 {
        4000
    } else {
        (2 * backoff_ms((waits - 1) as nat)) as u64
    }
}

/// The header that carries the API key. It is marked as sensitive.
pub open spec fn key_header(key: Seq<char>) -> HeaderView {
    HeaderView { name: "x-api-key"@, value: encode_utf8(key), sensitive: true }
}

/// The request that creates the asset.
pub open spec fn create_request(image: Seq<u8>, json: Seq<char>, key: Seq<char>) -> RequestView {
    RequestView {
        method: Method::Post,
        url: "https://apis.roblox.com/assets/v1/assets"@,
        query: Seq::empty(),
        headers: seq![key_header(key)],
        body: BodyView::Multipart(
            seq![("fileContent"@, PartView::Bytes(image)), ("request"@, PartView::Text(json))],
        ),
    }
}

/// The request that asks for the state of an operation.
pub open spec fn poll_request(operation: Seq<char>, key: Seq<char>) -> RequestView {
    RequestView {
        method: Method::Get,
        url: "https://apis.roblox.com/"@ + operation,
        query: Seq::empty(),
        headers: seq![key_header(key)],
        body: BodyView::Empty,
    }
}

/// The path of the operation that a reply to the create request names.
pub open spec fn operation_path(doc: Option<Json>) -> Option<Seq<char>> {
    match doc {
        Some(d) => match d.field("path"@) {
            Some(p) => p.text(),
            None => None,
        },
        None => None,
    }
}

/// The asset that the `response` of a finished operation shows: its
/// `assetId`, which is a number above zero, and its `assetVersionNumber`
/// where that is a number that fits `u32`.
pub open spec fn upload_response(doc: Json) -> Option<UploadResponse> {
    match doc.field("response"@) {
        Some(r) => match r.field("assetId"@) {
            Some(id) => match id.number() {
                Some(n) => if n > 0 {
                    Some(
                        UploadResponse {
                            asset_id: n,
                            asset_version_number: match r.field("assetVersionNumber"@) {
                                Some(v) => match v.number() {
                                    Some(k) => if k <= u32::MAX {
                                        Some(k as u32)
                                    } else {
                                        None
                                    },
                                    None => None,
                                },
                                None => None,
                            },
                        },
                    )
                } else {
                    None
                },
                None => None,
            },
            None => None,
        },
        None => None,
    }
}

/// What a reply to a poll says, read from its document.
pub open spec fn poll_reply(doc: Option<Json>) -> PollReply {
    match doc {
        Some(d) => match d.field("done"@) {
            Some(f) => match f.flag() {
                Some(done) => if done {
                    match upload_response(d) {
                        Some(r) => PollReply::Finished(r),
                        None => PollReply::Failed,
                    }
                } else {
                    PollReply::Pending
                },
                None => PollReply::Malformed,
            },
            None => PollReply::Malformed,
        },
        None => PollReply::Malformed,
    }
}

/// A client that has not started an upload.
pub open spec fn idle(api_key: Seq<char>) -> ClientView {
    ClientView { api_key, phase: Phase::Idle, operation: Seq::empty(), started_ms: 0, waits: 0 }
}

/// The upload fails with `error`.
pub open spec fn failed(s: ClientView, error: ErrorView) -> (ClientView, ActionView) {
    (ClientView { phase: Phase::Finished, ..s }, ActionView::Fail(error))
}

/// The client asks for the state of its operation.
pub open spec fn polling(s: ClientView) -> (ClientView, ActionView) {
    if header_legal(encode_utf8(s.api_key)) {
        (ClientView { phase: Phase::Polling, ..s }, ActionView::Send(poll_request(s.operation, s.api_key)))
    } else {
        failed(s, ErrorView::InvalidHeader)
    }
}

/// The time for which the client has polled.
pub open spec fn polled_ms(s: ClientView, now_ms: u64) -> int {
    if now_ms >= s.started_ms {
        now_ms - s.started_ms
    } else {
        0
    }
}

/// The start of an upload, given the JSON document of the request where it
/// could be written.
pub open spec fn begun(s: ClientView, image: Seq<u8>, json: Option<Seq<char>>) -> (ClientView, ActionView) {
    let fresh = ClientView { operation: Seq::empty(), started_ms: 0, waits: 0, ..s };
    match json {
        None => failed(fresh, ErrorView::BadRequestJson),
        Some(text) => if header_legal(encode_utf8(s.api_key)) {
            (
                ClientView { phase: Phase::Creating, ..fresh },
                ActionView::Send(create_request(image, text, s.api_key)),
            )
        } else {
            failed(fresh, ErrorView::InvalidHeader)
        },
    }
}

/// What follows the reply to the create request.
pub open spec fn after_create(s: ClientView, r: ResponseView, now_ms: u64) -> (ClientView, ActionView) {
    if !is_success(r.status) {
        failed(s, ErrorView::ResponseError { status: r.status, body: r.body })
    } else {
        match operation_path(parsed_json(r.body)) {
            Some(path) => polling(ClientView { operation: path, started_ms: now_ms, waits: 0, ..s }),
            None => failed(s, ErrorView::BadResponseJson { body: r.body }),
        }
    }
}

/// What follows the reply to a poll.
pub open spec fn after_poll(s: ClientView, r: ResponseView, now_ms: u64) -> (ClientView, ActionView) {
    if !is_success(r.status) {
        failed(s, ErrorView::ResponseError { status: r.status, body: r.body })
    } else {
        match poll_reply(parsed_json(r.body)) {
            PollReply::Malformed => failed(s, ErrorView::BadResponseJson { body: r.body }),
            PollReply::Failed => failed(s, ErrorView::ApiError { message: "processing failed"@ }),
            PollReply::Finished(done) => (
                ClientView { phase: Phase::Finished, ..s },
                ActionView::Done(done.asset_id),
            ),
            PollReply::Pending => if polled_ms(s, now_ms) >= poll_deadline_ms() {
                failed(s, ErrorView::ApiError { message: "timeout"@ })
            } else {
                (
                    ClientView {
                        phase: Phase::Sleeping,
                        waits: if s.waits < u32::MAX {
                            (s.waits + 1) as u32
                        } else {
                            s.waits
                        },
                        ..s
                    },
                    ActionView::Wait(backoff_ms(s.waits as nat)),
                )
            },
        }
    }
}

/// What follows a wait.
pub open spec fn after_wait(s: ClientView, now_ms: u64) -> (ClientView, ActionView) {
    if polled_ms(s, now_ms) >= poll_deadline_ms() {
        failed(s, ErrorView::ApiError { message: "timeout"@ })
    } else {
        polling(s)
    }
}

/// The step of the cloud protocol: from where the upload stands and what
/// happened, at time `now_ms`, to where it stands then and what to do next.
pub open spec fn next(s: ClientView, event: EventView, now_ms: u64) -> (ClientView, ActionView) {
    match event {
        EventView::Response(r) => if s.phase == Phase::Creating {
            after_create(s, r, now_ms)
        } else if s.phase == Phase::Polling {
            after_poll(s, r, now_ms)
        } else {
            failed(s, ErrorView::ApiError { message: "unexpected event"@ })
        },
        EventView::TransportFailure => if s.phase == Phase::Creating || s.phase == Phase::Polling {
            failed(s, ErrorView::Transport)
        } else {
            failed(s, ErrorView::ApiError { message: "unexpected event"@ })
        },
        EventView::Waited => if s.phase == Phase::Sleeping {
            after_wait(s, now_ms)
        } else {
            failed(s, ErrorView::ApiError { message: "unexpected event"@ })
        },
    }
}

/// An upload never ends with the asset id 0.
pub proof fn lemma_done_is_positive(s: ClientView, event: EventView, now_ms: u64)
    ensures
        next(s, event, now_ms).1 matches ActionView::Done(id) ==> id > 0,
{
}

/// What an error says does not depend on the API key: two clients that
/// differ in nothing but their keys fail, where both fail, with the same
/// error.
pub proof fn lemma_error_ignores_key(a: ClientView, b: ClientView, event: EventView, now_ms: u64)
    requires
        a == (ClientView { api_key: a.api_key, ..b }),
    ensures
        next(a, event, now_ms).1 matches ActionView::Fail(x) ==> (next(b, event, now_ms).1 matches ActionView::Fail(
            y,
        ) ==> x == y),
{
}

/// The same holds at the start of an upload.
pub proof fn lemma_first_error_ignores_key(a: ClientView, b: ClientView, image: Seq<u8>, json: Option<Seq<char>>)
    requires
        a == (ClientView { api_key: a.api_key, ..b }),
    ensures
        begun(a, image, json).1 matches ActionView::Fail(x) ==> (begun(b, image, json).1 matches ActionView::Fail(
            y,
        ) ==> x == y),
{
}

/// A wait is asked for only before the deadline, and is never shorter than
/// 500 ms or longer than 4 s.
pub proof fn lemma_wait_is_bounded(s: ClientView, event: EventView, now_ms: u64)
    ensures
        next(s, event, now_ms).1 matches ActionView::Wait(ms) ==> 500 <= ms <= 4000 && polled_ms(s, now_ms)
            < poll_deadline_ms(),
{
    lemma_backoff_values(s.waits as nat);
    if s.waits < 3 {
        reveal_with_fuel(backoff_ms, 4);
    }
}

/// Once the deadline has passed, no poll goes out and no wait is asked for.
pub proof fn lemma_deadline_ends_polling(s: ClientView, event: EventView, now_ms: u64)
    requires
        polled_ms(s, now_ms) >= poll_deadline_ms(),
        s.phase == Phase::Polling || s.phase == Phase::Sleeping,
    ensures
        !(next(s, event, now_ms).1 is Send),
        !(next(s, event, now_ms).1 is Wait),
{
}

/// The waits between polls are 500 ms, 1 s, 2 s, and 4 s from then on.
pub proof fn lemma_backoff_values(waits: nat)
    ensures
        backoff_ms(0) == 500,
        backoff_ms(1) == 1000,
        backoff_ms(2) == 2000,
        waits >= 3 ==> backoff_ms(waits) == 4000,
    decreases waits,
{
    reveal_with_fuel(backoff_ms, 4);
    if waits > 3 {
        lemma_backoff_values((waits - 1) as nat);
    }
}

/// The wait before the next poll, after `waits` waits.
pub fn backoff(waits: u32) -> (ms: u64)
    ensures
        ms == backoff_ms(waits as nat),
        500 <= ms <= 4000,
{
    let mut ms: u64 = 500;
    let mut done: u32 = 0;
    while done < waits
        invariant
            done <= waits,
            ms == backoff_ms(done as nat),
            500 <= ms <= 4000,
        decreases waits - done,
    {
        if 2 * ms >= 4000 {
            ms = 4000;
        } else {
            ms = 2 * ms;
        }
        done += 1;
    }
    ms
}

/// Reads the asset that the `response` of a finished operation shows.
pub fn read_upload_response(doc: &Json) -> (r: Option<UploadResponse>)
    ensures
        r == upload_response(*doc),
{
    let response = match doc.get("response") {
        Some(r) => r,
        None => {
            return None;
        },
    };
    let id = match response.get("assetId") {
        Some(id) => id.as_number(),
        None => None,
    };
    let version: Option<u32> = match response.get("assetVersionNumber") {
        Some(v) => match v.as_number() {
            Some(k) => if k <= u32::MAX as u64 {
                Some(k as u32)
            } else {
                None
            },
            None => None,
        },
        None => None,
    };
    match id {
        Some(n) => if n > 0 {
            Some(UploadResponse { asset_id: n, asset_version_number: version })
        } else {
            None
        },
        None => None,
    }
}

/// Reads what a reply to a poll says.
pub fn read_poll_reply(doc: &Option<Json>) -> (reply: PollReply)
    ensures
        reply == poll_reply(*doc),
{
    match doc {
        Some(d) => {
            let done = match d.get("done") {
                Some(f) => f.as_flag(),
                None => None,
            };
            match done {
                Some(true) => match read_upload_response(d) {
                    Some(r) => PollReply::Finished(r),
                    None => PollReply::Failed,
                },
                Some(false) => PollReply::Pending,
                None => PollReply::Malformed,
            }
        },
        None => PollReply::Malformed,
    }
}

/// Reads the path of the operation from the reply to the create request.
pub fn read_operation_path(doc: &Option<Json>) -> (path: Option<String>)
    ensures
        path is Some <==> operation_path(*doc) is Some,
        path matches Some(p) ==> operation_path(*doc) == Some(p@),
{
    match doc {
        Some(d) => match d.get("path") {
            Some(p) => match p.as_text() {
                Some(t) => Some(t.clone()),
                None => None,
            },
            None => None,
        },
        None => None,
    }
}

impl RobloxApiClient {
    /// A client that will authenticate with `api_key`.
    pub fn new(api_key: Secret) -> (client: RobloxApiClient)
        ensures
            client@ == idle(api_key@),
    {
        RobloxApiClient { api_key, phase: Phase::Idle, operation: String::new(), started_ms: 0, waits: 0 }
    }

    /// The name of the client, for a log. It says nothing of what the
    /// client holds.
    pub fn describe(&self) -> (text: String)
        ensures
            text@ == "RobloxApiClient"@,
    {
        "RobloxApiClient".to_owned()
    }

    /// Where the upload stands.
    pub fn phase(&self) -> (phase: Phase)
        ensures
            phase == self@.phase,
    {
        self.phase
    }

    /// The header that carries the API key, where the key may stand in one.
    fn key_header(&self) -> (header: Option<Header>)
        ensures
            header is Some <==> header_legal(encode_utf8(self@.api_key)),
            header matches Some(h) ==> h@ == key_header(self@.api_key),
    {
        match header_value(expose(&self.api_key)) {
            Some(value) => Some(Header { name: "x-api-key".to_owned(), value: hide_header(value) }),
            None => None,
        }
    }

    fn fail(&mut self, error: RobloxApiError) -> (action: Action)
        ensures
            final(self)@ == failed(old(self)@, error@).0,
            action@ == failed(old(self)@, error@).1,
    {
        self.phase = Phase::Finished;
        Action::Fail(error)
    }

    fn poll(&mut self) -> (action: Action)
        ensures
            final(self)@ == polling(old(self)@).0,
            action@ == polling(old(self)@).1,
    {
        match self.key_header() {
            Some(header) => {
                let mut url = "https://apis.roblox.com/".to_owned();
                url.append(self.operation.as_str());
                self.phase = Phase::Polling;
                let request = Request {
                    method: Method::Get,
                    url,
                    query: Vec::new(),
                    headers: vec![header],
                    body: Body::Empty,
                };
                assert(request@ =~~= poll_request(old(self)@.operation, old(self)@.api_key));
                Action::Send(request)
            },
            None => self.fail(RobloxApiError::InvalidHeader),
        }
    }

    /// Starts an upload with the JSON document of the request as it was
    /// written, or with `None` where it could not be written.
    pub fn begin(&mut self, image: Vec<u8>, json: Option<String>) -> (action: Action)
        ensures
            final(self)@ == begun(
                old(self)@,
                image@,
                match json {
                    Some(t) => Some(t@),
                    None => None,
                },
            ).0,
            action@ == begun(
                old(self)@,
                image@,
                match json {
                    Some(t) => Some(t@),
                    None => None,
                },
            ).1,
    {
        self.operation = String::new();
        self.started_ms = 0;
        self.waits = 0;
        match json {
            None => self.fail(RobloxApiError::BadRequestJson),
            Some(text) => match self.key_header() {
                Some(header) => {
                    self.phase = Phase::Creating;
                    let ghost image_bytes = image@;
                    let ghost json_text = text@;
                    let request = Request {
                        method: Method::Post,
                        url: "https://apis.roblox.com/assets/v1/assets".to_owned(),
                        query: Vec::new(),
                        headers: vec![header],
                        body: Body::Multipart(
                            vec![
                                Part { name: "fileContent".to_owned(), content: PartContent::Bytes(image) },
                                Part { name: "request".to_owned(), content: PartContent::Text(text) },
                            ],
                        ),
                    };
                    assert(request@ =~~= create_request(image_bytes, json_text, old(self)@.api_key));
                    Action::Send(request)
                },
                None => self.fail(RobloxApiError::InvalidHeader),
            },
        }
    }

    /// Starts the upload of an image: the create request goes out, unless
    /// the key cannot stand in a header (`InvalidHeader`).
    pub fn upload_asset(&mut self, image: Vec<u8>, data: AssetUploadData) -> (action: Action)
        ensures
            final(self)@ == begun(old(self)@, image@, Some(data.json())).0,
            action@ == begun(old(self)@, image@, Some(data.json())).1,
    {
        match data.to_json() {
            Ok(text) => self.begin(image, Some(text)),
            Err(_) => self.begin(image, None),
        }
    }

    /// Takes the upload one step further: `event` is what became of the last
    /// action, `now_ms` the time on a clock that does not run backwards.
    pub fn advance(&mut self, event: Event, now_ms: u64) -> (action: Action)
        ensures
            final(self)@ == next(old(self)@, event@, now_ms).0,
            action@ == next(old(self)@, event@, now_ms).1,
    {
        match event {
            Event::Response(reply) => {
                if self.phase == Phase::Creating {
                    self.on_create(reply, now_ms)
                } else if self.phase == Phase::Polling {
                    self.on_poll(reply, now_ms)
                } else {
                    self.fail(RobloxApiError::ApiError { message: "unexpected event".to_owned() })
                }
            },
            Event::TransportFailure => {
                if self.phase == Phase::Creating || self.phase == Phase::Polling {
                    self.fail(RobloxApiError::Transport)
                } else {
                    self.fail(RobloxApiError::ApiError { message: "unexpected event".to_owned() })
                }
            },
            Event::Waited => {
                if self.phase == Phase::Sleeping {
                    if self.polled_out(now_ms) {
                        self.fail(RobloxApiError::ApiError { message: "timeout".to_owned() })
                    } else {
                        self.poll()
                    }
                } else {
                    self.fail(RobloxApiError::ApiError { message: "unexpected event".to_owned() })
                }
            },
        }
    }

    fn polled_out(&self, now_ms: u64) -> (out: bool)
        ensures
            out == (polled_ms(self@, now_ms) >= poll_deadline_ms()),
    {
        now_ms >= self.started_ms && now_ms - self.started_ms >= 60_000
    }

    fn on_create(&mut self, reply: Response, now_ms: u64) -> (action: Action)
        ensures
            final(self)@ == after_create(old(self)@, reply@, now_ms).0,
            action@ == after_create(old(self)@, reply@, now_ms).1,
    {
        if !status_is_success(reply.status) {
            return self.fail(RobloxApiError::ResponseError { status: reply.status, body: reply.body });
        }
        let doc = read_json(reply.body.as_str());
        match read_operation_path(&doc) {
            Some(path) => {
                self.operation = path;
                self.started_ms = now_ms;
                self.waits = 0;
                self.poll()
            },
            None => self.fail(RobloxApiError::BadResponseJson { body: reply.body }),
        }
    }

    fn on_poll(&mut self, reply: Response, now_ms: u64) -> (action: Action)
        ensures
            final(self)@ == after_poll(old(self)@, reply@, now_ms).0,
            action@ == after_poll(old(self)@, reply@, now_ms).1,
    {
        if !status_is_success(reply.status) {
            return self.fail(RobloxApiError::ResponseError { status: reply.status, body: reply.body });
        }
        let doc = read_json(reply.body.as_str());
        match read_poll_reply(&doc) {
            PollReply::Malformed => self.fail(RobloxApiError::BadResponseJson { body: reply.body }),
            PollReply::Failed => self.fail(
                RobloxApiError::ApiError { message: "processing failed".to_owned() },
            ),
            PollReply::Finished(done) => {
                self.phase = Phase::Finished;
                Action::Done(done.asset_id)
            },
            PollReply::Pending => {
                if self.polled_out(now_ms) {
                    self.fail(RobloxApiError::ApiError { message: "timeout".to_owned() })
                } else {
                    let wait = backoff(self.waits);
                    self.phase = Phase::Sleeping;
                    if self.waits < u32::MAX {
                        self.waits = self.waits + 1;
                    }
                    Action::Wait(wait)
                }
            },
        }
    }
}

} // verus!
