//! The upload client and the description of what it uploads.

pub mod cookie;
pub mod errors;
pub mod web;

pub use errors::RobloxApiError;

use crate::auth::Credential;
use crate::http::{made_of, Action, ActionView, Event, EventView, Transport};
use crate::text::holds_text;
use errors::ErrorView;
use vstd::prelude::*;

verus! {

/// Who owns an uploaded asset: one user, or a group.
#[derive(Debug, Clone, Copy, PartialEq, Eq, Structural)]
pub enum CreatorType {
    User,
    Group,
}

/// A text was given as the kind of creator that names neither.
#[derive(Debug, Clone, Copy, PartialEq, Eq, Structural)]
pub struct CreatorError {}

/// The kind of creator that a text names: `user` or `group`, with a small
/// or a capital first letter.
pub open spec fn named_creator_type(input: Seq<char>) -> Option<CreatorType> {
    if input == "user"@ || input == "User"@ {
        Some(CreatorType::User)
    } else if input == "group"@ || input == "Group"@ {
        Some(CreatorType::Group)
    } else {
        None
    }
}

impl CreatorType {
    /// Reads the kind of creator from the text of an option.
    pub fn from_str(input: &str) -> (r: Result<CreatorType, CreatorError>)
        ensures
            match named_creator_type(input@) {
                Some(t) => r == Ok::<CreatorType, CreatorError>(t),
                None => r is Err,
            },
    {
        let given = input.to_owned();
        if given == "user".to_owned() || given == "User".to_owned() {
            Ok(CreatorType::User)
        } else if given == "group".to_owned() || given == "Group".to_owned() {
            Ok(CreatorType::Group)
        } else {
            Err(CreatorError {  })
        }
    }
}

impl CreatorError {
    /// The text that describes the error to a person.
    pub fn message(&self) -> (text: String)
        ensures
            text@ == "Invalid value for the CreatorType option! Must be 'user' or 'group'"@,
    {
        "Invalid value for the CreatorType option! Must be 'user' or 'group'".to_owned()
    }
}

/// The account that will own the asset.
#[derive(Debug, Clone, Copy, PartialEq, Eq, Structural)]
pub struct Creator {
    pub creator_type: CreatorType,
    pub creator_id: u64,
}

/// What the caller says of the image: its name, its description, its owner.
#[derive(Debug, Clone, Copy)]
pub struct ImageData<'a> {
    pub name: &'a str,
    pub description: &'a str,
    pub creator: Creator,
}

/// A client of the service: of the cloud protocol where it holds an API
/// key, of the session protocol where it holds a cookie.
pub enum RobloxApiClient {
    Web(web::RobloxApiClient),
    Cookie(cookie::RobloxApiClient),
}

/// The content of a [`RobloxApiClient`].
#[verifier::ext_equal]
pub enum ClientView {
    Web(web::ClientView),
    Cookie(cookie::ClientView),
}

impl View for RobloxApiClient {
    type V = ClientView;

    open spec fn view(&self) -> ClientView {
        match self {
            RobloxApiClient::Web(api) => ClientView::Web(api@),
            RobloxApiClient::Cookie(api) => ClientView::Cookie(api@),
        }
    }
}

/// The id that goes along with an upload under the session protocol: that
/// of a group.
pub open spec fn group_of(creator: Creator) -> Option<u64> {
    match creator.creator_type {
        CreatorType::Group => Some(creator.creator_id),
        CreatorType::User => None,
    }
}

/// The JSON document that describes an image to the cloud protocol.
pub open spec fn described(data: ImageData) -> Seq<char> {
    web::request_json(web::TargetType::Decal, data.name@, data.description@, data.creator)
}

/// The start of an upload under the cloud protocol.
pub open spec fn begun_web(s: web::ClientView, image: Seq<u8>, data: ImageData) -> (ClientView, ActionView) {
    (
        ClientView::Web(web::begun(s, image, Some(described(data))).0),
        web::begun(s, image, Some(described(data))).1,
    )
}

/// The start of an upload under the session protocol.
pub open spec fn begun_cookie(s: cookie::ClientView, image: Seq<u8>, data: ImageData, retry: bool) -> (
    ClientView,
    ActionView,
) {
    (
        ClientView::Cookie(
            cookie::begun(s, image, data.name@, data.description@, group_of(data.creator), retry).0,
        ),
        cookie::begun(s, image, data.name@, data.description@, group_of(data.creator), retry).1,
    )
}

/// Whether `after` and `action` are how an upload starts from `before`. The
/// cloud protocol never sends an image again when moderation has turned it
/// down, so `retry` makes no difference to it.
pub open spec fn starts(
    before: ClientView,
    after: ClientView,
    action: ActionView,
    image: Seq<u8>,
    data: ImageData,
    retry: bool,
) -> bool {
    match before {
        ClientView::Web(s) => (after, action) == begun_web(s, image, data),
        ClientView::Cookie(s) => (after, action) == begun_cookie(s, image, data, retry),
    }
}

/// The step of an upload: from where it stands and what happened, at time
/// `now_ms`, to where it stands then and what to do next.
pub open spec fn next(s: ClientView, event: EventView, now_ms: u64) -> (ClientView, ActionView) {
    match s {
        ClientView::Web(w) => (ClientView::Web(web::next(w, event, now_ms).0), web::next(w, event, now_ms).1),
        ClientView::Cookie(c) => (ClientView::Cookie(cookie::next(c, event).0), cookie::next(c, event).1),
    }
}

/// No step of an upload ends it with the asset id 0.
pub proof fn lemma_asset_id_is_positive(s: ClientView, event: EventView, now_ms: u64)
    ensures
        next(s, event, now_ms).1 matches ActionView::Done(id) ==> id > 0,
{
}

/// An error that ends an upload is made of fixed words and of what the
/// service answered, and of nothing else.
pub proof fn lemma_error_is_made_of_the_answer(s: ClientView, event: EventView, now_ms: u64)
    ensures
        next(s, event, now_ms).1 matches ActionView::Fail(x) ==> made_of(event, x),
{
}

/// The text of an error that ends an upload holds a given text, the key or
/// the cookie of the client for one, only where the fixed words or the
/// answer of the service hold it.
pub proof fn lemma_error_holds_no_secret(s: ClientView, event: EventView, now_ms: u64, secret: Seq<char>)
    requires
        forall|e: ErrorView| #[trigger] made_of(event, e) ==> !holds_text(e.text(), secret),
    ensures
        next(s, event, now_ms).1 matches ActionView::Fail(x) ==> !holds_text(x.text(), secret),
{
    lemma_error_is_made_of_the_answer(s, event, now_ms);
}

/// An upload that fails at its start fails with `InvalidHeader`, whose text
/// is fixed.
pub proof fn lemma_first_error_is_fixed(
    before: ClientView,
    after: ClientView,
    action: ActionView,
    image: Seq<u8>,
    data: ImageData,
    retry: bool,
)
    requires
        starts(before, after, action, image, data, retry),
    ensures
        action matches ActionView::Fail(x) ==> x == ErrorView::InvalidHeader,
{
}

/// No upload is done before its first request was answered.
pub proof fn lemma_start_is_not_done(
    before: ClientView,
    after: ClientView,
    action: ActionView,
    image: Seq<u8>,
    data: ImageData,
    retry: bool,
)
    requires
        starts(before, after, action, image, data, retry),
    ensures
        !(action is Done),
{
}

impl RobloxApiClient {
    /// The client for a credential.
    pub fn from_credential(credential: Credential) -> (client: RobloxApiClient)
        ensures
            match credential {
                Credential::ApiKey(key) => client@ == ClientView::Web(web::idle(key@)),
                Credential::SessionCookie(cookie) => client@ == ClientView::Cookie(cookie::idle(cookie@)),
            },
    {
        match credential {
            Credential::ApiKey(key) => RobloxApiClient::Web(web::RobloxApiClient::new(key)),
            Credential::SessionCookie(cookie) => RobloxApiClient::Cookie(
                cookie::RobloxApiClient::new(cookie),
            ),
        }
    }

    /// The name of the client, for a log. It says nothing of what the
    /// client holds.
    pub fn describe(&self) -> (text: String)
        ensures
            text@ == "RobloxApiClient"@,
    {
        match self {
            RobloxApiClient::Web(api) => api.describe(),
            RobloxApiClient::Cookie(api) => api.describe(),
        }
    }

    /// How the requests of this client are to be sent: each may take 30
    /// seconds, and only a client with an API key follows redirects.
    pub fn transport(&self) -> (transport: Transport)
        ensures
            transport.timeout_ms == 30_000,
            transport.follow_redirects == (self@ is Web),
    {
        match self {
            RobloxApiClient::Web(_) => Transport { timeout_ms: 30_000, follow_redirects: true },
            RobloxApiClient::Cookie(_) => Transport { timeout_ms: 30_000, follow_redirects: false },
        }
    }

    /// Starts the upload of an image and says what to send first. A
    /// moderation verdict ends the upload.
    pub fn upload_asset(&mut self, image: Vec<u8>, data: ImageData) -> (action: Action)
        ensures
            starts(old(self)@, final(self)@, action@, image@, data, false),
    {
        match self {
            RobloxApiClient::Web(api) => api.upload_asset(image, web::AssetUploadData::from(data)),
            RobloxApiClient::Cookie(api) => api.upload_image(cookie::ImageUploadData::from(image, data)),
        }
    }

    /// Starts the upload of an image and says what to send first. Under the
    /// session protocol the image is sent again after a moderation verdict.
    pub fn upload_asset_with_moderation_retry(&mut self, image: Vec<u8>, data: ImageData) -> (action: Action)
        ensures
            starts(old(self)@, final(self)@, action@, image@, data, true),
    {
        match self {
            RobloxApiClient::Web(api) => api.upload_asset(image, web::AssetUploadData::from(data)),
            RobloxApiClient::Cookie(api) => api.upload_image_with_moderation_retry(
                cookie::ImageUploadData::from(image, data),
            ),
        }
    }

    /// Takes the upload one step further: `event` is what became of the last
    /// action, `now_ms` the time on a clock that does not run backwards.
    pub fn advance(&mut self, event: Event, now_ms: u64) -> (action: Action)
        ensures
            final(self)@ == next(old(self)@, event@, now_ms).0,
            action@ == next(old(self)@, event@, now_ms).1,
            action matches Action::Done(id) ==> id > 0,
    {
        match self {
            RobloxApiClient::Web(api) => api.advance(event, now_ms),
            RobloxApiClient::Cookie(api) => api.advance(event),
        }
    }
}

} // verus!
