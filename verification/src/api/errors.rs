//! What can go wrong with an upload.

use crate::text::{decimal, to_decimal};
use vstd::prelude::*;
use vstd::string::StringExecFns;

verus! {

/// The ways in which an upload fails. None of them holds any part of a
/// credential: the texts come from the service's replies or are fixed.
#[derive(Debug, PartialEq, Eq)]
pub enum RobloxApiError {
    /// Neither an API key nor a session cookie was given or found.
    MissingCredential,
    /// The request did not get through, or no reply came back.
    Transport,
    /// The reply to the request for a CSRF token carried no token.
    MissingCsrfToken,
    /// The service answered with a status that is no success.
    ResponseError { status: u16, body: String },
    /// The description of the asset could not be written as JSON.
    BadRequestJson,
    /// The service reported success, but its reply was not what a
    /// successful reply looks like.
    BadResponseJson { body: String },
    /// The service took the request and the upload failed all the same.
    ApiError { message: String },
    /// The credential holds bytes that may not stand in a header.
    InvalidHeader,
}

/// The content of a [`RobloxApiError`].
#[verifier::ext_equal]
pub enum ErrorView {
    MissingCredential,
    Transport,
    MissingCsrfToken,
    ResponseError { status: u16, body: Seq<char> },
    BadRequestJson,
    BadResponseJson { body: Seq<char> },
    ApiError { message: Seq<char> },
    InvalidHeader,
}

impl View for RobloxApiError {
    type V = ErrorView;

    open spec fn view(&self) -> ErrorView {
        match self {
            RobloxApiError::MissingCredential => ErrorView::MissingCredential,
            RobloxApiError::Transport => ErrorView::Transport,
            RobloxApiError::MissingCsrfToken => ErrorView::MissingCsrfToken,
            RobloxApiError::ResponseError { status, body } => ErrorView::ResponseError {
                status: *status,
                body: body@,
            },
            RobloxApiError::BadRequestJson => ErrorView::BadRequestJson,
            RobloxApiError::BadResponseJson { body } => ErrorView::BadResponseJson { body: body@ },
            RobloxApiError::ApiError { message } => ErrorView::ApiError { message: message@ },
            RobloxApiError::InvalidHeader => ErrorView::InvalidHeader,
        }
    }
}

impl ErrorView {
    /// The text that describes the error to a person.
    pub open spec fn text(self) -> Seq<char> {
        match self {
            ErrorView::MissingCredential => "No API key or session cookie was found"@,
            ErrorView::Transport => "Roblox API HTTP error"@,
            ErrorView::MissingCsrfToken => "Request for CSRF token did not return an X-CSRF-Token header."@,
            ErrorView::ResponseError { status, body } => "Roblox API returned HTTP "@ + decimal(status as nat)
                + " with body: "@ + body,
            ErrorView::BadRequestJson => "Unable to convert request to JSON"@,
            ErrorView::BadResponseJson { body } => "Roblox API returned success, but had malformed JSON response: "@
                + body,
            ErrorView::ApiError { message } => "Roblox API error: "@ + message,
            ErrorView::InvalidHeader => "Credential cannot be sent as an HTTP header"@,
        }
    }
}

impl RobloxApiError {
    /// Writes the error out for a person to read.
    pub fn message(&self) -> (text: String)
        ensures
            text@ == self@.text(),
    {
        match self {
            RobloxApiError::MissingCredential => "No API key or session cookie was found".to_owned(),
            RobloxApiError::Transport => "Roblox API HTTP error".to_owned(),
            RobloxApiError::MissingCsrfToken => "Request for CSRF token did not return an X-CSRF-Token header.".to_owned(),
            RobloxApiError::ResponseError { status, body } => {
                let mut text = "Roblox API returned HTTP ".to_owned();
                let code = to_decimal(*status as u64);
                text.append(code.as_str());
                text.append(" with body: ");
                text.append(body.as_str());
                text
            },
            RobloxApiError::BadRequestJson => "Unable to convert request to JSON".to_owned(),
            RobloxApiError::BadResponseJson { body } => {
                let mut text = "Roblox API returned success, but had malformed JSON response: ".to_owned();
                text.append(body.as_str());
                text
            },
            RobloxApiError::ApiError { message } => {
                let mut text = "Roblox API error: ".to_owned();
                text.append(message.as_str());
                text
            },
            RobloxApiError::InvalidHeader => "Credential cannot be sent as an HTTP header".to_owned(),
        }
    }
}

} // verus!
