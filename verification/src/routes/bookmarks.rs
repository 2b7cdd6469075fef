//! The bookmark proxy: serve the cached payload, or fetch it from the source
//! that the caller names and cache what came.

use crate::error::ApiError;
use crate::status::Status;
use crate::text::{equal, trim, trimmed};
use vstd::prelude::*;

verus! {

/// The parameters of a request for the bookmarks.
#[derive(Debug, PartialEq, Eq)]
pub struct BookmarkQuery {
    /// `yes` asks for a fresh fetch; anything else, or nothing, does not.
    pub force: Option<String>,
    /// The source to fetch from when the cache does not serve.
    pub url: Option<String>,
}

/// What a `BookmarkQuery` holds.
pub struct BookmarkQueryView {
    pub force: Option<Seq<char>>,
    pub url: Option<Seq<char>>,
}

impl View for BookmarkQuery {
    type V = BookmarkQueryView;

    open spec fn view(&self) -> BookmarkQueryView {
        BookmarkQueryView { force: self.force.deep_view(), url: self.url.deep_view() }
    }
}

impl BookmarkQueryView {
    /// Whether the caller asks for a fresh fetch: `force` is exactly `yes`.
    pub open spec fn forces_refresh(self) -> bool {
        self.force == Some("yes"@)
    }

    /// The source that the caller names, without the white space around it;
    /// empty where the caller names none.
    pub open spec fn source_url(self) -> Seq<char> {
        match self.url {
            Some(url) => trimmed(url),
            None => Seq::empty(),
        }
    }
}

impl BookmarkQuery {
    /// Whether the caller asks for a fresh fetch.
    pub fn forces_refresh(&self) -> (yes: bool)
        ensures
            yes == self@.forces_refresh(),
    {
        match &self.force {
            Some(force) => equal(force.as_str(), "yes"),
            None => false,
        }
    }

    /// The source that the caller names, without the white space around it.
    pub fn source_url(&self) -> (url: String)
        ensures
            url@ == self@.source_url(),
    {
        match &self.url {
            Some(url) => trim(url.as_str()).to_owned(),
            None => String::new(),
        }
    }
}

/// A served payload: the bytes as they were cached or fetched, announced as
/// JSON whatever they are.
#[derive(Debug, PartialEq, Eq)]
pub struct BookmarksResponse {
    pub status: Status,
    /// The value of the `Content-Type` header.
    pub content_type: String,
    pub body: Vec<u8>,
}

/// What a `BookmarksResponse` holds.
pub struct BookmarksResponseView {
    pub status: Status,
    pub content_type: Seq<char>,
    pub body: Seq<u8>,
}

impl View for BookmarksResponse {
    type V = BookmarksResponseView;

    open spec fn view(&self) -> BookmarksResponseView {
        BookmarksResponseView {
            status: self.status,
            content_type: self.content_type@,
            body: self.body@,
        }
    }
}

/// Whether `response` serves `body` with the status 200 and the JSON content type.
pub open spec fn serves(response: BookmarksResponseView, body: Seq<u8>) -> bool {
    &&& response.status.code() == 200
    &&& response.content_type == "application/json; charset=utf-8"@
    &&& response.body == body
}

/// How far the answer to one request for the bookmarks has come.
#[derive(Debug, PartialEq, Eq)]
pub enum ProxyState {
    /// Nothing has been asked yet.
    Idle,
    /// The cache is being read; `url` is the source to turn to if it is empty.
    Loading { url: String },
    /// The source has been asked; its status is awaited.
    AwaitingStatus,
    /// The source reported success; its body is awaited.
    AwaitingBody,
    /// `body` came from the source and is being written to the cache.
    Storing { body: Vec<u8> },
    /// The caller has its answer.
    Done,
}

/// What a `ProxyState` holds.
pub enum ProxyStateView {
    Idle,
    Loading { url: Seq<char> },
    AwaitingStatus,
    AwaitingBody,
    Storing { body: Seq<u8> },
    Done,
}

impl View for ProxyState {
    type V = ProxyStateView;

    open spec fn view(&self) -> ProxyStateView {
        match self {
            ProxyState::Idle => ProxyStateView::Idle,
            ProxyState::Loading { url } => ProxyStateView::Loading { url: url@ },
            ProxyState::AwaitingStatus => ProxyStateView::AwaitingStatus,
            ProxyState::AwaitingBody => ProxyStateView::AwaitingBody,
            ProxyState::Storing { body } => ProxyStateView::Storing { body: body@ },
            ProxyState::Done => ProxyStateView::Done,
        }
    }
}

/// What happened since the last step.
#[derive(Debug, PartialEq, Eq)]
pub enum ProxyEvent {
    /// A caller asks for the bookmarks.
    Call { query: BookmarkQuery },
    /// The cache was read: it held this payload, or nothing.
    Loaded { payload: Option<Vec<u8>> },
    /// The cache is there and could not be read.
    LoadFailed,
    /// The source answered with this status.
    Answered { status: Status },
    /// The body of the source's answer was read in full.
    Received { body: Vec<u8> },
    /// The exchange with the source broke off. `carried` is the status that
    /// the transport's error carries, where it carries one.
    Broken { carried: Option<Status> },
    /// The attempt to write the cache ended, well or not.
    Stored { written: bool },
}

/// What a `ProxyEvent` holds.
pub enum ProxyEventView {
    Call { query: BookmarkQueryView },
    Loaded { payload: Option<Seq<u8>> },
    LoadFailed,
    Answered { status: Status },
    Received { body: Seq<u8> },
    Broken { carried: Option<Status> },
    Stored { written: bool },
}

impl View for ProxyEvent {
    type V = ProxyEventView;

    open spec fn view(&self) -> ProxyEventView {
        match self {
            ProxyEvent::Call { query } => ProxyEventView::Call { query: query@ },
            ProxyEvent::Loaded { payload } => ProxyEventView::Loaded {
                payload: match payload {
                    Some(bytes) => Some(bytes@),
                    None => None,
                },
            },
            ProxyEvent::LoadFailed => ProxyEventView::LoadFailed,
            ProxyEvent::Answered { status } => ProxyEventView::Answered { status: *status },
            ProxyEvent::Received { body } => ProxyEventView::Received { body: body@ },
            ProxyEvent::Broken { carried } => ProxyEventView::Broken { carried: *carried },
            ProxyEvent::Stored { written } => ProxyEventView::Stored { written: *written },
        }
    }
}

/// What is to be done next.
#[derive(Debug, PartialEq, Eq)]
pub enum ProxyAction {
    /// Read the cache and report what it holds.
    Load,
    /// Send a `GET` to `url` under this `User-Agent` and report the status
    /// of the answer.
    Fetch { url: String, user_agent: String },
    /// Read the answer's body in full and report it.
    ReadBody,
    /// Write `body` to the cache in place of what it holds, and report how
    /// that went.
    Store { body: Vec<u8> },
    /// Answer the caller with this payload.
    Respond { response: BookmarksResponse },
    /// Answer the caller with this failure.
    Fail { error: ApiError },
}

/// What a `ProxyAction` holds.
pub enum ProxyActionView {
    Load,
    Fetch { url: Seq<char>, user_agent: Seq<char> },
    ReadBody,
    Store { body: Seq<u8> },
    Respond { response: BookmarksResponseView },
    Fail { error: ApiError },
}

impl View for ProxyAction {
    type V = ProxyActionView;

    open spec fn view(&self) -> ProxyActionView {
        match self {
            ProxyAction::Load => ProxyActionView::Load,
            ProxyAction::Fetch { url, user_agent } => ProxyActionView::Fetch {
                url: url@,
                user_agent: user_agent@,
            },
            ProxyAction::ReadBody => ProxyActionView::ReadBody,
            ProxyAction::Store { body } => ProxyActionView::Store { body: body@ },
            ProxyAction::Respond { response } => ProxyActionView::Respond { response: response@ },
            ProxyAction::Fail { error } => ProxyActionView::Fail { error: *error },
        }
    }
}

/// The step that turns to the source `url`: a fetch, or an internal failure
/// where no source is named.
pub open spec fn turn_to_source(url: Seq<char>) -> (ProxyStateView, ProxyActionView) {
    if url.len() == 0 {
        (ProxyStateView::Done, ProxyActionView::Fail { error: ApiError::Internal })
    } else {
        (
            ProxyStateView::AwaitingStatus,
            ProxyActionView::Fetch { url, user_agent: "private_start_page/0.1"@ },
        )
    }
}

/// The step that serves `body` to the caller.
pub open spec fn serve(body: Seq<u8>) -> (ProxyStateView, ProxyActionView) {
    (
        ProxyStateView::Done,
        ProxyActionView::Respond {
            response: BookmarksResponseView {
                status: Status::spec_ok(),
                content_type: "application/json; charset=utf-8"@,
                body,
            },
        },
    )
}

/// One step of answering a request for the bookmarks: the state after
/// `event` and what is to be done next.
///
/// A call that does not force a refresh reads the cache first, and a payload
/// found there is served as it is. A forced call, or an empty cache, turns to
/// the source that the call named. A status from the source that reports
/// success has the body read; any other ends the request with that status.
/// The body is written to the cache and then served, however the writing
/// went. An unreadable cache and a broken exchange end the request with
/// their failures. An event that the state does not await ends it with an
/// internal failure.
pub open spec fn proxy_step(state: ProxyStateView, event: ProxyEventView) -> (
    ProxyStateView,
    ProxyActionView,
) {
    match (state, event) {
        (ProxyStateView::Idle, ProxyEventView::Call { query }) => if query.forces_refresh() {
            turn_to_source(query.source_url())
        } else {
            (ProxyStateView::Loading { url: query.source_url() }, ProxyActionView::Load)
        },
        (ProxyStateView::Loading { url }, ProxyEventView::Loaded { payload: Some(bytes) }) => serve(
            bytes,
        ),
        (ProxyStateView::Loading { url }, ProxyEventView::Loaded { payload: None }) => turn_to_source(
            url,
        ),
        (ProxyStateView::Loading { url }, ProxyEventView::LoadFailed) => (
            ProxyStateView::Done,
            ProxyActionView::Fail { error: ApiError::Io },
        ),
        (ProxyStateView::AwaitingStatus, ProxyEventView::Answered { status }) => if status.is_success() {
            (ProxyStateView::AwaitingBody, ProxyActionView::ReadBody)
        } else {
            (ProxyStateView::Done, ProxyActionView::Fail { error: ApiError::Upstream(status) })
        },
        (ProxyStateView::AwaitingStatus, ProxyEventView::Broken { carried }) => (
            ProxyStateView::Done,
            ProxyActionView::Fail { error: ApiError::Request(carried) },
        ),
        (ProxyStateView::AwaitingBody, ProxyEventView::Received { body }) => (
            ProxyStateView::Storing { body },
            ProxyActionView::Store { body },
        ),
        (ProxyStateView::AwaitingBody, ProxyEventView::Broken { carried }) => (
            ProxyStateView::Done,
            ProxyActionView::Fail { error: ApiError::Request(carried) },
        ),
        (ProxyStateView::Storing { body }, ProxyEventView::Stored { written }) => serve(body),
        _ => (ProxyStateView::Done, ProxyActionView::Fail { error: ApiError::Internal }),
    }
}

/// The step that turns to the source `url`.
fn fetch_from(url: String) -> (next: (ProxyState, ProxyAction))
    ensures
        (next.0@, next.1@) == turn_to_source(url@),
{
    if url.as_str().is_empty() {
        (ProxyState::Done, ProxyAction::Fail { error: ApiError::Internal })
    } else {
        (
            ProxyState::AwaitingStatus,
            ProxyAction::Fetch { url, user_agent: "private_start_page/0.1".to_owned() },
        )
    }
}

/// The step that serves `body` to the caller.
fn respond_with(body: Vec<u8>) -> (next: (ProxyState, ProxyAction))
    ensures
        (next.0@, next.1@) == serve(body@),
{
    (
        ProxyState::Done,
        ProxyAction::Respond {
            response: BookmarksResponse {
                status: Status::ok(),
                content_type: "application/json; charset=utf-8".to_owned(),
                body,
            },
        },
    )
}

/// One step of answering a request for the bookmarks. The caller of this
/// function does what the action says and comes back with the event that
/// resulted, until the action is `Respond` or `Fail`.
pub fn serve_bookmarks(state: ProxyState, event: ProxyEvent) -> (next: (ProxyState, ProxyAction))
    ensures
        (next.0@, next.1@) == proxy_step(state@, event@),
{
    match (state, event) {
        (ProxyState::Idle, ProxyEvent::Call { query }) => {
            let url = query.source_url();
            if query.forces_refresh() {
                fetch_from(url)
            } else {
                (ProxyState::Loading { url }, ProxyAction::Load)
            }
        },
        (ProxyState::Loading { url }, ProxyEvent::Loaded { payload: Some(bytes) }) => respond_with(
            bytes,
        ),
        (ProxyState::Loading { url }, ProxyEvent::Loaded { payload: None }) => fetch_from(url),
        (ProxyState::Loading { url }, ProxyEvent::LoadFailed) => (
            ProxyState::Done,
            ProxyAction::Fail { error: ApiError::Io },
        ),
        (ProxyState::AwaitingStatus, ProxyEvent::Answered { status }) => if status.is_success() {
            (ProxyState::AwaitingBody, ProxyAction::ReadBody)
        } else {
            (ProxyState::Done, ProxyAction::Fail { error: ApiError::Upstream(status) })
        },
        (ProxyState::AwaitingStatus, ProxyEvent::Broken { carried }) => (
            ProxyState::Done,
            ProxyAction::Fail { error: ApiError::Request(carried) },
        ),
        (ProxyState::AwaitingBody, ProxyEvent::Received { body }) => {
            let copy = body.clone();
            (ProxyState::Storing { body }, ProxyAction::Store { body: copy })
        },
        (ProxyState::AwaitingBody, ProxyEvent::Broken { carried }) => (
            ProxyState::Done,
            ProxyAction::Fail { error: ApiError::Request(carried) },
        ),
        (ProxyState::Storing { body }, ProxyEvent::Stored { written }) => respond_with(body),
        _ => (ProxyState::Done, ProxyAction::Fail { error: ApiError::Internal }),
    }
}

} // verus!
