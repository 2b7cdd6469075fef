use api_server::error::ApiError;
use api_server::routes::bookmarks::{
    serve_bookmarks, BookmarkQuery, BookmarksResponse, ProxyAction, ProxyEvent, ProxyState,
};
use api_server::status::Status;

fn query(force: Option<&str>, url: Option<&str>) -> BookmarkQuery {
    BookmarkQuery {
        force: force.map(|text| text.to_string()),
        url: url.map(|text| text.to_string()),
    }
}

fn status(code: u16) -> Status {
    Status::from_u16(code).unwrap()
}

fn fetch(url: &str) -> ProxyAction {
    ProxyAction::Fetch { url: url.to_string(), user_agent: "private_start_page/0.1".to_string() }
}

fn respond(body: &[u8]) -> ProxyAction {
    ProxyAction::Respond {
        response: BookmarksResponse {
            status: Status::ok(),
            content_type: "application/json; charset=utf-8".to_string(),
            body: body.to_vec(),
        },
    }
}

fn fail(error: ApiError) -> ProxyAction {
    ProxyAction::Fail { error }
}

/// What a `GET` meets in the played world.
enum Source {
    Unreachable,
    Answers(u16, Vec<u8>),
}

/// A cache in memory and one source, with a count of what was asked of them.
struct Host {
    cache: Option<Vec<u8>>,
    cache_readable: bool,
    cache_writable: bool,
    source: Source,
    fetched: Vec<String>,
    stores: usize,
    loads: usize,
}

impl Host {
    fn new(cache: Option<&[u8]>, source: Source) -> Host {
        Host {
            cache: cache.map(|bytes| bytes.to_vec()),
            cache_readable: true,
            cache_writable: true,
            source,
            fetched: Vec::new(),
            stores: 0,
            loads: 0,
        }
    }

    /// Plays one request to its end and returns the last action.
    fn serve(&mut self, query: BookmarkQuery) -> ProxyAction {
        let mut state = ProxyState::Idle;
        let mut event = ProxyEvent::Call { query };
        for _ in 0..8 {
            let (next, action) = serve_bookmarks(state, event);
            state = next;
            event = match action {
                ProxyAction::Load => {
                    self.loads += 1;
                    match &self.cache {
                        Some(_) if !self.cache_readable => ProxyEvent::LoadFailed,
                        payload => ProxyEvent::Loaded { payload: payload.clone() },
                    }
                },
                ProxyAction::Fetch { url, user_agent } => {
                    assert_eq!(user_agent, "private_start_page/0.1");
                    self.fetched.push(url);
                    match &self.source {
                        Source::Unreachable => ProxyEvent::Broken { carried: None },
                        Source::Answers(code, _) => ProxyEvent::Answered { status: status(*code) },
                    }
                },
                ProxyAction::ReadBody => match &self.source {
                    Source::Unreachable => ProxyEvent::Broken { carried: None },
                    Source::Answers(_, body) => ProxyEvent::Received { body: body.clone() },
                },
                ProxyAction::Store { body } => {
                    self.stores += 1;
                    if self.cache_writable {
                        self.cache = Some(body);
                    }
                    ProxyEvent::Stored { written: self.cache_writable }
                },
                last => {
                    assert_eq!(state, ProxyState::Done);
                    return last;
                },
            };
        }
        panic!("the request did not end");
    }
}

#[test]
fn only_yes_forces_a_refresh() {
    assert!(query(Some("yes"), None).forces_refresh());
    assert!(!query(None, None).forces_refresh());
    assert!(!query(Some(""), None).forces_refresh());
    assert!(!query(Some("Yes"), None).forces_refresh());
    assert!(!query(Some("YES"), None).forces_refresh());
    assert!(!query(Some("yes "), None).forces_refresh());
    assert!(!query(Some("true"), None).forces_refresh());
    assert!(!query(Some("no"), None).forces_refresh());
}

#[test]
fn source_url_is_trimmed() {
    assert_eq!(query(None, None).source_url(), "");
    assert_eq!(query(None, Some("")).source_url(), "");
    assert_eq!(query(None, Some(" \t ")).source_url(), "");
    assert_eq!(query(None, Some("  http://x/b.json \n")).source_url(), "http://x/b.json");
    assert_eq!(query(None, Some("http://x/a b")).source_url(), "http://x/a b");
}

#[test]
fn unforced_call_reads_the_cache_first() {
    let (state, action) = serve_bookmarks(
        ProxyState::Idle,
        ProxyEvent::Call { query: query(None, Some(" http://x/b ")) },
    );
    assert_eq!(state, ProxyState::Loading { url: "http://x/b".to_string() });
    assert_eq!(action, ProxyAction::Load);
}

#[test]
fn forced_call_fetches_at_once_from_the_trimmed_url() {
    let (state, action) = serve_bookmarks(
        ProxyState::Idle,
        ProxyEvent::Call { query: query(Some("yes"), Some(" http://x/b ")) },
    );
    assert_eq!(state, ProxyState::AwaitingStatus);
    assert_eq!(action, fetch("http://x/b"));
}

#[test]
fn forced_call_without_url_is_an_internal_failure() {
    for url in [None, Some(""), Some("   ")] {
        let (state, action) = serve_bookmarks(
            ProxyState::Idle,
            ProxyEvent::Call { query: query(Some("yes"), url) },
        );
        assert_eq!(state, ProxyState::Done);
        assert_eq!(action, fail(ApiError::Internal));
    }
}

#[test]
fn cached_payload_is_served_as_it_is() {
    let (state, action) = serve_bookmarks(
        ProxyState::Loading { url: String::new() },
        ProxyEvent::Loaded { payload: Some(b"not json at all".to_vec()) },
    );
    assert_eq!(state, ProxyState::Done);
    assert_eq!(action, respond(b"not json at all"));
}

#[test]
fn empty_cached_payload_is_a_hit() {
    let (_, action) = serve_bookmarks(
        ProxyState::Loading { url: "http://x/b".to_string() },
        ProxyEvent::Loaded { payload: Some(Vec::new()) },
    );
    assert_eq!(action, respond(b""));
}

#[test]
fn cache_miss_turns_to_the_source() {
    let (state, action) = serve_bookmarks(
        ProxyState::Loading { url: "http://x/b".to_string() },
        ProxyEvent::Loaded { payload: None },
    );
    assert_eq!(state, ProxyState::AwaitingStatus);
    assert_eq!(action, fetch("http://x/b"));
}

#[test]
fn cache_miss_without_url_is_an_internal_failure() {
    let (state, action) = serve_bookmarks(
        ProxyState::Loading { url: String::new() },
        ProxyEvent::Loaded { payload: None },
    );
    assert_eq!(state, ProxyState::Done);
    assert_eq!(action, fail(ApiError::Internal));
}

#[test]
fn unreadable_cache_is_an_io_failure() {
    let (state, action) = serve_bookmarks(
        ProxyState::Loading { url: "http://x/b".to_string() },
        ProxyEvent::LoadFailed,
    );
    assert_eq!(state, ProxyState::Done);
    assert_eq!(action, fail(ApiError::Io));
}

#[test]
fn source_status_decides_between_body_and_failure() {
    for code in [200u16, 201, 299] {
        let (state, action) =
            serve_bookmarks(ProxyState::AwaitingStatus, ProxyEvent::Answered { status: status(code) });
        assert_eq!(state, ProxyState::AwaitingBody);
        assert_eq!(action, ProxyAction::ReadBody);
    }
    for code in [100u16, 199, 300, 304, 404, 500, 999] {
        let (state, action) =
            serve_bookmarks(ProxyState::AwaitingStatus, ProxyEvent::Answered { status: status(code) });
        assert_eq!(state, ProxyState::Done);
        assert_eq!(action, fail(ApiError::Upstream(status(code))));
    }
}

#[test]
fn broken_exchange_is_a_request_failure() {
    let (state, action) =
        serve_bookmarks(ProxyState::AwaitingStatus, ProxyEvent::Broken { carried: None });
    assert_eq!(state, ProxyState::Done);
    assert_eq!(action, fail(ApiError::Request(None)));
    let (state, action) = serve_bookmarks(
        ProxyState::AwaitingBody,
        ProxyEvent::Broken { carried: Some(status(200)) },
    );
    assert_eq!(state, ProxyState::Done);
    assert_eq!(action, fail(ApiError::Request(Some(status(200)))));
}

#[test]
fn received_body_is_stored_then_served() {
    let (state, action) = serve_bookmarks(
        ProxyState::AwaitingBody,
        ProxyEvent::Received { body: vec![1, 2, 3] },
    );
    assert_eq!(state, ProxyState::Storing { body: vec![1, 2, 3] });
    assert_eq!(action, ProxyAction::Store { body: vec![1, 2, 3] });
    for written in [true, false] {
        let (state, action) = serve_bookmarks(
            ProxyState::Storing { body: vec![1, 2, 3] },
            ProxyEvent::Stored { written },
        );
        assert_eq!(state, ProxyState::Done);
        assert_eq!(action, respond(&[1, 2, 3]));
    }
}

#[test]
fn unawaited_event_is_an_internal_failure() {
    let (state, action) =
        serve_bookmarks(ProxyState::Idle, ProxyEvent::Stored { written: true });
    assert_eq!(state, ProxyState::Done);
    assert_eq!(action, fail(ApiError::Internal));
    let (_, action) = serve_bookmarks(
        ProxyState::AwaitingStatus,
        ProxyEvent::Received { body: vec![1] },
    );
    assert_eq!(action, fail(ApiError::Internal));
    let (_, action) =
        serve_bookmarks(ProxyState::Done, ProxyEvent::Call { query: query(None, None) });
    assert_eq!(action, fail(ApiError::Internal));
}

#[test]
fn fetched_payload_is_served_again_without_the_network() {
    let mut host = Host::new(None, Source::Answers(200, b"[1,2]".to_vec()));
    assert_eq!(host.serve(query(None, Some("http://x/b"))), respond(b"[1,2]"));
    assert_eq!(host.fetched, vec!["http://x/b"]);
    assert_eq!(host.cache, Some(b"[1,2]".to_vec()));
    host.source = Source::Unreachable;
    assert_eq!(host.serve(query(None, None)), respond(b"[1,2]"));
    assert_eq!(host.fetched.len(), 1);
    assert_eq!(host.stores, 1);
}

#[test]
fn forced_call_fetches_although_the_cache_is_warm_and_overwrites_it() {
    let mut host = Host::new(Some(b"old"), Source::Answers(200, b"new".to_vec()));
    assert_eq!(host.serve(query(Some("yes"), Some("http://x/b"))), respond(b"new"));
    assert_eq!(host.fetched, vec!["http://x/b"]);
    assert_eq!(host.loads, 0);
    assert_eq!(host.stores, 1);
    assert_eq!(host.cache, Some(b"new".to_vec()));
    assert_eq!(host.serve(query(None, None)), respond(b"new"));
    assert_eq!(host.fetched.len(), 1);
}

#[test]
fn cold_cache_without_url_fails_without_the_network() {
    for url in [None, Some(""), Some(" \n")] {
        let mut host = Host::new(None, Source::Answers(200, b"x".to_vec()));
        assert_eq!(host.serve(query(None, url)), fail(ApiError::Internal));
        assert_eq!(host.fetched.len(), 0);
        assert_eq!(host.stores, 0);
        assert_eq!(host.cache, None);
    }
}

#[test]
fn failed_cache_write_still_serves_the_fetched_bytes() {
    let mut host = Host::new(None, Source::Answers(200, b"fresh".to_vec()));
    host.cache_writable = false;
    assert_eq!(host.serve(query(None, Some("http://x/b"))), respond(b"fresh"));
    assert_eq!(host.stores, 1);
    assert_eq!(host.cache, None);
}

#[test]
fn upstream_failure_leaves_the_cache_alone() {
    let mut host = Host::new(Some(b"old"), Source::Answers(503, b"down".to_vec()));
    assert_eq!(
        host.serve(query(Some("yes"), Some("http://x/b"))),
        fail(ApiError::Upstream(status(503)))
    );
    assert_eq!(host.stores, 0);
    assert_eq!(host.cache, Some(b"old".to_vec()));
    assert_eq!(host.fetched.len(), 1);
}

#[test]
fn unreachable_source_is_a_bad_gateway() {
    let mut host = Host::new(None, Source::Unreachable);
    let last = host.serve(query(None, Some("http://x/b")));
    assert_eq!(last, fail(ApiError::Request(None)));
    assert_eq!(ApiError::Request(None).status().as_u16(), 502);
}

#[test]
fn unreadable_cache_fails_the_unforced_call_only() {
    let mut host = Host::new(Some(b"old"), Source::Answers(200, b"new".to_vec()));
    host.cache_readable = false;
    assert_eq!(host.serve(query(None, Some("http://x/b"))), fail(ApiError::Io));
    assert_eq!(host.fetched.len(), 0);
    assert_eq!(host.serve(query(Some("yes"), Some("http://x/b"))), respond(b"new"));
}
