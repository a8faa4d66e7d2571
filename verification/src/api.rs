//! The bookmarking server's two operations: what is asked of it, and what
//! its answers mean.
//!
//! Nothing here talks to the server. A request is built as a value for the
//! caller to send; what came back is handed in as a status and a header.

use crate::bindings::{ascii_text, header_text, is_visible_ascii, join, joined_url, texts};
use crate::errors::ReadeckError;
use vstd::prelude::*;
use vstd::string::*;

verus! {

/// The labels of a bookmark: the bot's label where `bot_mark` is set, else
/// none.
pub open spec fn bot_labels(bot_mark: bool) -> Seq<Seq<char>> {
    if bot_mark {
        seq!["readeck-bot"@]
    } else {
        Seq::empty()
    }
}

/// The body of a request that creates a bookmark.
#[derive(Debug, Clone, PartialEq, Eq)]
pub struct BookmarkCreateRequest {
    labels: Vec<String>,
    url: String,
}

/// A `BookmarkCreateRequest` as mathematical values.
pub struct BookmarkCreateRequestView {
    pub labels: Seq<Seq<char>>,
    pub url: Seq<char>,
}

impl View for BookmarkCreateRequest {
    type V = BookmarkCreateRequestView;

    closed spec fn view(&self) -> BookmarkCreateRequestView {
        BookmarkCreateRequestView { labels: texts(self.labels@), url: self.url@ }
    }
}

impl BookmarkCreateRequest {
    /// The body that saves `url`, labelled as the bot's where `bot_mark` is
    /// set.
    pub fn new(url: String, bot_mark: bool) -> (request: BookmarkCreateRequest)
        ensures
            request@.url == url@,
            request@.labels == bot_labels(bot_mark),
    {
        let mut labels: Vec<String> = Vec::new();
        if bot_mark {
            labels.push("readeck-bot".to_owned());
        }
        assert(texts(labels@) =~= bot_labels(bot_mark));
        BookmarkCreateRequest { labels, url }
    }

    /// The labels to give the bookmark.
    pub fn labels(&self) -> (labels: &Vec<String>)
        ensures
            texts(labels@) == self@.labels,
    {
        &self.labels
    }

    /// The URL to save.
    pub fn url(&self) -> (url: &String)
        ensures
            url@ == self@.url,
    {
        &self.url
    }
}

/// What the server tells of a bookmark.
#[derive(Debug, Clone, PartialEq, Eq)]
pub struct BookmarkDetailsResponse {
    /// The title of the saved page; empty where the server found none.
    pub title: String,
    /// The estimated reading time, where the server gives one.
    pub reading_time: Option<u32>,
}

/// How a request is made.
#[derive(Debug, Clone, Copy, PartialEq, Eq)]
pub enum Method {
    Get,
    Post,
}

/// One request to the server, for the caller to send.
#[derive(Debug, Clone, PartialEq, Eq)]
pub struct ApiRequest {
    pub method: Method,
    /// The absolute URL to send the request to.
    pub endpoint: String,
    /// The token to authorise with, as a bearer token.
    pub bearer_token: String,
    /// The content type to declare, if any.
    pub content_type: Option<String>,
    /// The body to send as JSON, if any.
    pub body: Option<BookmarkCreateRequest>,
}

/// An `ApiRequest` as mathematical values.
pub struct ApiRequestView {
    pub method: Method,
    pub endpoint: Seq<char>,
    pub bearer_token: Seq<char>,
    pub content_type: Option<Seq<char>>,
    pub body: Option<BookmarkCreateRequestView>,
}

impl View for ApiRequest {
    type V = ApiRequestView;

    open spec fn view(&self) -> ApiRequestView {
        ApiRequestView {
            method: self.method,
            endpoint: self.endpoint@,
            bearer_token: self.bearer_token@,
            content_type: match self.content_type {
                Some(t) => Some(t@),
                None => None,
            },
            body: match self.body {
                Some(b) => Some(b@),
                None => None,
            },
        }
    }
}

/// The request that creates a bookmark of `url` at `endpoint`.
pub open spec fn create_request(
    endpoint: Seq<char>,
    url: Seq<char>,
    api_token: Seq<char>,
    bot_mark: bool,
) -> ApiRequestView {
    ApiRequestView {
        method: Method::Post,
        endpoint,
        bearer_token: api_token,
        content_type: Some("application/json"@),
        body: Some(BookmarkCreateRequestView { labels: bot_labels(bot_mark), url }),
    }
}

/// The request that fetches the bookmark at `endpoint`.
pub open spec fn details_request(endpoint: Seq<char>, api_token: Seq<char>) -> ApiRequestView {
    ApiRequestView {
        method: Method::Get,
        endpoint,
        bearer_token: api_token,
        content_type: None,
        body: None,
    }
}

impl ApiRequest {
    /// The request that creates a bookmark of `url` at `endpoint`: a POST
    /// with the token, a JSON content type and the URL with its labels as
    /// the body.
    pub fn create(endpoint: String, url: String, api_token: &str, bot_mark: bool) -> (request:
        ApiRequest)
        ensures
            request@ == create_request(endpoint@, url@, api_token@, bot_mark),
    {
        ApiRequest {
            method: Method::Post,
            endpoint,
            bearer_token: api_token.to_owned(),
            content_type: Some("application/json".to_owned()),
            body: Some(BookmarkCreateRequest::new(url, bot_mark)),
        }
    }

    /// The request that fetches the bookmark at `endpoint`: a GET with the
    /// token and no body.
    pub fn details(endpoint: String, api_token: &str) -> (request: ApiRequest)
        ensures
            request@ == details_request(endpoint@, api_token@),
    {
        ApiRequest {
            method: Method::Get,
            endpoint,
            bearer_token: api_token.to_owned(),
            content_type: None,
            body: None,
        }
    }
}

/// Whether every byte of `bytes` is a tab or a printable ASCII character.
pub open spec fn all_visible_ascii(bytes: Seq<u8>) -> bool {
    forall|i: int| 0 <= i < bytes.len() ==> is_visible_ascii(#[trigger] bytes[i])
}

/// What the answer to a create request means, given its status and the
/// value of its `Bookmark-Id` header: the new bookmark's identifier on 202
/// with a header of tabs and printable ASCII, else the error.
pub open spec fn save_outcome(status: u16, bookmark_id: Option<Seq<u8>>) -> Result<
    Seq<char>,
    ReadeckError,
> {
    if status == 202 {
        match bookmark_id {
            Some(value) => if all_visible_ascii(value) {
                Ok(ascii_text(value))
            } else {
                Err(ReadeckError::MissingBookmarkId)
            },
            None => Err(ReadeckError::MissingBookmarkId),
        }
    } else if status == 401 {
        Err(ReadeckError::Unauthorized)
    } else if status == 403 {
        Err(ReadeckError::Forbidden)
    } else if status == 422 {
        Err(ReadeckError::InvalidData)
    } else {
        Err(ReadeckError::OtherHttp(status))
    }
}

/// What the status of the answer to a details request means: on 200 the
/// body holds the details, else the error.
pub open spec fn details_outcome(status: u16) -> Result<(), ReadeckError> {
    if status == 200 {
        Ok(())
    } else if status == 401 {
        Err(ReadeckError::Unauthorized)
    } else if status == 403 {
        Err(ReadeckError::Forbidden)
    } else {
        Err(ReadeckError::OtherHttp(status))
    }
}

/// The path of the bookmark `id` on the server.
pub open spec fn bookmark_path(id: Seq<char>) -> Seq<char> {
    "/api/bookmarks/"@ + id
}

/// The bookmarking server at one base URL.
#[derive(Debug, Clone, PartialEq, Eq)]
pub struct ReadeckApi {
    server_url: String,
}

impl ReadeckApi {
    /// The base URL of the server.
    pub closed spec fn server(&self) -> Seq<char> {
        self.server_url@
    }

    /// The server at `server_url`.
    pub fn new(server_url: String) -> (api: ReadeckApi)
        ensures
            api.server() == server_url@,
    {
        ReadeckApi { server_url }
    }

    /// The base URL of the server.
    pub fn server_url(&self) -> (url: &str)
        ensures
            url@ == self.server(),
    {
        self.server_url.as_str()
    }

    /// The request that saves `url`, if the base URL yields an endpoint.
    pub open spec fn save_url_spec(
        &self,
        url: Seq<char>,
        api_token: Seq<char>,
        bot_mark: bool,
    ) -> Option<ApiRequestView> {
        match joined_url(self.server(), "/api/bookmarks"@) {
            Some(endpoint) => Some(create_request(endpoint, url, api_token, bot_mark)),
            None => None,
        }
    }

    /// The request that saves `url` for the owner of `api_token`: a create
    /// request to `/api/bookmarks` under the base URL. `None` where the base
    /// URL is malformed, so that no endpoint can be derived from it.
    pub fn save_url(&self, url: String, api_token: &str, bot_mark: bool) -> (request: Option<
        ApiRequest,
    >)
        ensures
            match request {
                Some(r) => self.save_url_spec(url@, api_token@, bot_mark) == Some(r@),
                None => self.save_url_spec(url@, api_token@, bot_mark) is None,
            },
    {
        match join(self.server_url.as_str(), "/api/bookmarks") {
            Some(endpoint) => Some(ApiRequest::create(endpoint, url, api_token, bot_mark)),
            None => None,
        }
    }

    /// What the answer to a create request means: the identifier of the new
    /// bookmark, or why there is none. `bookmark_id` is the value of the
    /// answer's `Bookmark-Id` header, where it has one.
    pub fn saved_bookmark_id(status: u16, bookmark_id: Option<&[u8]>) -> (saved: Result<
        String,
        ReadeckError,
    >)
        ensures
            match saved {
                Ok(id) => save_outcome(status, slice_view(bookmark_id)) == Ok::<
                    Seq<char>,
                    ReadeckError,
                >(id@),
                Err(e) => save_outcome(status, slice_view(bookmark_id)) == Err::<
                    Seq<char>,
                    ReadeckError,
                >(e),
            },
    {
        if status == 202 {
            match bookmark_id {
                Some(value) => match header_text(value) {
                    Some(id) => Ok(id),
                    None => Err(ReadeckError::MissingBookmarkId),
                },
                None => Err(ReadeckError::MissingBookmarkId),
            }
        } else if status == 401 {
            Err(ReadeckError::Unauthorized)
        } else if status == 403 {
            Err(ReadeckError::Forbidden)
        } else if status == 422 {
            Err(ReadeckError::InvalidData)
        } else {
            Err(ReadeckError::OtherHttp(status))
        }
    }

    /// The request that fetches the bookmark `id`, if the base URL yields an
    /// endpoint.
    pub open spec fn get_bookmark_details_spec(
        &self,
        id: Seq<char>,
        api_token: Seq<char>,
    ) -> Option<ApiRequestView> {
        match joined_url(self.server(), bookmark_path(id)) {
            Some(endpoint) => Some(details_request(endpoint, api_token)),
            None => None,
        }
    }

    /// The request that fetches the details of the bookmark `id` for the
    /// owner of `api_token`: a details request to `/api/bookmarks/` and the
    /// identifier under the base URL. `None` where no endpoint can be
    /// derived.
    pub fn get_bookmark_details(&self, id: String, api_token: &str) -> (request: Option<
        ApiRequest,
    >)
        ensures
            match request {
                Some(r) => self.get_bookmark_details_spec(id@, api_token@) == Some(r@),
                None => self.get_bookmark_details_spec(id@, api_token@) is None,
            },
    {
        let mut path = "/api/bookmarks/".to_owned();
        path.append(id.as_str());
        match join(self.server_url.as_str(), path.as_str()) {
            Some(endpoint) => Some(ApiRequest::details(endpoint, api_token)),
            None => None,
        }
    }

    /// What the status of the answer to a details request means: `Ok` on
    /// 200, where the body is to be read, else why there are no details.
    pub fn details_status(status: u16) -> (outcome: Result<(), ReadeckError>)
        ensures
            outcome == details_outcome(status),
    {
        if status == 200 {
            Ok(())
        } else if status == 401 {
            Err(ReadeckError::Unauthorized)
        } else if status == 403 {
            Err(ReadeckError::Forbidden)
        } else {
            Err(ReadeckError::OtherHttp(status))
        }
    }
}

/// The bytes of a header value, where there is one.
pub open spec fn slice_view(value: Option<&[u8]>) -> Option<Seq<u8>> {
    match value {
        Some(v) => Some(v@),
        None => None,
    }
}

} // verus!
