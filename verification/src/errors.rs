//! What can go wrong while a message is handled, and how it is worded.

use crate::text::{decimal, push_decimal};
use vstd::prelude::*;
use vstd::string::*;

verus! {

/// Why the bookmarking server did not do what was asked of it.
#[derive(Debug, Clone, PartialEq, Eq)]
pub enum ReadeckError {
    /// The server answered 401: it does not know the token.
    Unauthorized,
    /// The server answered 403: the token does not carry the permission.
    Forbidden,
    /// The server answered 422: it does not accept what was sent.
    InvalidData,
    /// The server answered with another status that is no success.
    OtherHttp(u16),
    /// The request did not reach the server, or its answer did not come
    /// back; the transport's own description.
    ReqwestError(String),
    /// A body could not be written or read as JSON; the codec's own
    /// description.
    SerdeError(String),
    /// The server accepted the bookmark and named no readable identifier.
    MissingBookmarkId,
}

impl ReadeckError {
    /// The wording of the error.
    pub open spec fn message_spec(self) -> Seq<char> {
        match self {
            ReadeckError::Unauthorized => {
                "The request token found in the Authorization header is not valid"@
            },
            ReadeckError::Forbidden => {
                "The user doesn't have permission to fetch users for the specified, but has other account permissions"@
            },
            ReadeckError::InvalidData => "Input data is not valid"@,
            ReadeckError::OtherHttp(status) => "HTTP Error "@ + decimal(status as nat),
            ReadeckError::ReqwestError(detail) => "A network error occurred: "@ + detail@,
            ReadeckError::SerdeError(detail) => {
                "A serialization/deserialization error occurred: "@ + detail@
            },
            ReadeckError::MissingBookmarkId => "Missing bookmark id"@,
        }
    }

    /// The wording of the error, as text to show.
    pub fn message(&self) -> (text: String)
        ensures
            text@ == self.message_spec(),
    {
        match self {
            ReadeckError::Unauthorized => {
                "The request token found in the Authorization header is not valid".to_owned()
            },
            ReadeckError::Forbidden => {
                "The user doesn't have permission to fetch users for the specified, but has other account permissions".to_owned()
            },
            ReadeckError::InvalidData => "Input data is not valid".to_owned(),
            ReadeckError::OtherHttp(status) => {
                let mut text = "HTTP Error ".to_owned();
                push_decimal(&mut text, *status as u64);
                text
            },
            ReadeckError::ReqwestError(detail) => {
                let mut text = "A network error occurred: ".to_owned();
                text.append(detail.as_str());
                text
            },
            ReadeckError::SerdeError(detail) => {
                let mut text = "A serialization/deserialization error occurred: ".to_owned();
                text.append(detail.as_str());
                text
            },
            ReadeckError::MissingBookmarkId => "Missing bookmark id".to_owned(),
        }
    }
}

/// Why a message did not end in a plain confirmation.
#[derive(Debug, Clone, PartialEq, Eq)]
pub enum ProcessError {
    /// The message holds no URL, or the first candidate in it is none.
    NotAnUrl,
    /// The bookmark was not saved.
    ReadeckError(ReadeckError),
    /// The bookmark was saved, and its details could not be fetched.
    SavedWithError(ReadeckError),
}

impl ProcessError {
    /// The wording of the error.
    pub open spec fn message_spec(self) -> Seq<char> {
        match self {
            ProcessError::NotAnUrl => "Not a valid URL"@,
            ProcessError::ReadeckError(cause) => cause.message_spec(),
            ProcessError::SavedWithError(cause) => {
                "Article saved, but errors occurred: "@ + cause.message_spec()
            },
        }
    }

    /// The wording of the error, as text to show.
    pub fn message(&self) -> (text: String)
        ensures
            text@ == self.message_spec(),
    {
        match self {
            ProcessError::NotAnUrl => "Not a valid URL".to_owned(),
            ProcessError::ReadeckError(cause) => cause.message(),
            ProcessError::SavedWithError(cause) => {
                let mut text = "Article saved, but errors occurred: ".to_owned();
                let detail = cause.message();
                text.append(detail.as_str());
                text
            },
        }
    }
}

} // verus!
