//! Requests for the bookmarks on a modelled disk and network.

use crate::error::ApiError;
use crate::routes::bookmarks::{
    proxy_step, serves, BookmarkQueryView, BookmarksResponseView, ProxyActionView, ProxyEventView,
    ProxyStateView,
};
use crate::runs::cache::{lemma_load, lemma_save, load, save, Disk};
use crate::status::Status;
use vstd::prelude::*;

verus! {

/// What a `GET` of one address meets.
pub enum Reply {
    /// No answer comes. `carried` is the status that the transport's error
    /// carries, where it carries one.
    Unreachable { carried: Option<Status> },
    /// An answer with this status comes, and its body can be read in full.
    Complete { status: Status, body: Seq<u8> },
    /// An answer with this status comes, and the reading of its body breaks off.
    Truncated { status: Status, carried: Option<Status> },
}

/// The disk and the network around one request.
pub struct World {
    pub disk: Disk,
    /// What a `GET` of each address meets.
    pub sources: spec_fn(Seq<char>) -> Reply,
    /// The answer whose body is still to be read, where there is one.
    pub in_flight: Option<Reply>,
}

/// How the world answers an action, and the world after it.
pub open spec fn answer(world: World, action: ProxyActionView) -> (ProxyEventView, World) {
    match action {
        ProxyActionView::Load => match load(world.disk) {
            Some(Ok(payload)) => (ProxyEventView::Loaded { payload }, world),
            _ => (ProxyEventView::LoadFailed, world),
        },
        ProxyActionView::Fetch { url, user_agent } => {
            let reply = (world.sources)(url);
            let after = World { in_flight: Some(reply), ..world };
            match reply {
                Reply::Unreachable { carried } => (ProxyEventView::Broken { carried }, after),
                Reply::Complete { status, body } => (ProxyEventView::Answered { status }, after),
                Reply::Truncated { status, carried } => (ProxyEventView::Answered { status }, after),
            }
        },
        ProxyActionView::ReadBody => match world.in_flight {
            Some(Reply::Complete { status, body }) => (ProxyEventView::Received { body }, world),
            Some(Reply::Truncated { status, carried }) => (
                ProxyEventView::Broken { carried },
                world,
            ),
            _ => (ProxyEventView::Broken { carried: None }, world),
        },
        ProxyActionView::Store { body } => {
            let (end, disk) = save(world.disk, body);
            (
                ProxyEventView::Stored { written: end == Some(Ok::<(), ApiError>(())) },
                World { disk, ..world },
            )
        },
        _ => (ProxyEventView::LoadFailed, world),
    }
}

/// One request from its call to its answer.
pub struct Run {
    /// What the caller receives, where the request has ended.
    pub outcome: Option<Result<BookmarksResponseView, ApiError>>,
    /// Everything that was done for the request, in order.
    pub actions: Seq<ProxyActionView>,
    /// The world that the request leaves.
    pub world: World,
}

/// The run that goes on from `state` with `event`, as far as `fuel` further
/// actions take it.
pub open spec fn play(state: ProxyStateView, event: ProxyEventView, world: World, fuel: nat) -> Run
    decreases fuel,
{
    let (next, action) = proxy_step(state, event);
    match action {
        ProxyActionView::Respond { response } => Run {
            outcome: Some(Ok(response)),
            actions: seq![action],
            world,
        },
        ProxyActionView::Fail { error } => Run {
            outcome: Some(Err(error)),
            actions: seq![action],
            world,
        },
        _ => if fuel == 0 {
            Run { outcome: None, actions: seq![action], world }
        } else {
            let (event, after) = answer(world, action);
            let rest = play(next, event, after, (fuel - 1) as nat);
            Run { outcome: rest.outcome, actions: seq![action] + rest.actions, world: rest.world }
        },
    }
}

/// The run of one request for the bookmarks in `world`.
pub open spec fn request(world: World, query: BookmarkQueryView) -> Run {
    play(ProxyStateView::Idle, ProxyEventView::Call { query }, world, 4)
}

impl Run {
    /// Whether the action at the index `at` asks the network for something.
    pub open spec fn fetches_at(self, at: int) -> bool {
        0 <= at < self.actions.len() && self.actions[at] is Fetch
    }

    /// Whether the action at the index `at` writes to the cache.
    pub open spec fn stores_at(self, at: int) -> bool {
        0 <= at < self.actions.len() && self.actions[at] is Store
    }

    /// Whether the action at the index `at` reads the cache.
    pub open spec fn loads_at(self, at: int) -> bool {
        0 <= at < self.actions.len() && self.actions[at] is Load
    }

    /// Whether the run asked the network for anything.
    pub open spec fn touches_network(self) -> bool {
        exists|at: int| self.fetches_at(at)
    }

    /// Whether the run read the cache.
    pub open spec fn reads_cache(self) -> bool {
        exists|at: int| self.loads_at(at)
    }

    /// Whether the run served `body` to the caller.
    pub open spec fn served(self, body: Seq<u8>) -> bool {
        self.outcome matches Some(Ok(response)) && serves(response, body)
    }

    /// Whether the run ended with the failure `error`.
    pub open spec fn failed(self, error: ApiError) -> bool {
        self.outcome == Some(Err::<BookmarksResponseView, ApiError>(error))
    }
}

/// Whether the cache of `world` holds no payload.
pub open spec fn cold(world: World) -> bool {
    world.disk.file is None
}

/// Whether the request turns to its source at once or after reading the
/// cache: it forces a refresh, or the cache is cold.
pub open spec fn must_fetch(world: World, query: BookmarkQueryView) -> bool {
    query.forces_refresh() || cold(world)
}

/// The `GET` that a request sends to the source `url`.
pub open spec fn fetch_of(url: Seq<char>) -> ProxyActionView {
    ProxyActionView::Fetch { url, user_agent: "private_start_page/0.1"@ }
}

/// Every request ends, after five actions at most, and its last action is
/// the answer that the caller receives.
pub proof fn lemma_request_ends(world: World, query: BookmarkQueryView)
    ensures
        request(world, query).outcome is Some,
        1 <= request(world, query).actions.len() <= 5,
        match request(world, query).outcome {
            Some(Ok(response)) => request(world, query).actions.last()
                == ProxyActionView::Respond { response },
            Some(Err(error)) => request(world, query).actions.last() == ProxyActionView::Fail {
                error,
            },
            None => false,
        },
{
    reveal_with_fuel(play, 5);
    lemma_load(world.disk);
}

/// A request asks the network at most once and writes to the cache at most
/// once.
pub proof fn lemma_one_fetch_one_store(world: World, query: BookmarkQueryView)
    ensures
        forall|i: int, j: int|
            request(world, query).fetches_at(i) && request(world, query).fetches_at(j) ==> i == j,
        forall|i: int, j: int|
            request(world, query).stores_at(i) && request(world, query).stores_at(j) ==> i == j,
{
    reveal_with_fuel(play, 5);
    lemma_load(world.disk);
}

/// A request that does not force a refresh and finds a payload in a cache
/// that can be read serves exactly that payload, asks the network for
/// nothing and leaves the world as it was.
pub proof fn lemma_cache_hit(world: World, query: BookmarkQueryView, payload: Seq<u8>)
    requires
        !query.forces_refresh(),
        world.disk.file == Some(payload),
        world.disk.readable(),
    ensures
        request(world, query).served(payload),
        !request(world, query).touches_network(),
        request(world, query).world == world,
{
    reveal_with_fuel(play, 5);
    lemma_load(world.disk);
    Status::lemma_ok();
}

/// A cache that is there and cannot be read fails a request that does not
/// force a refresh, with an I/O failure and without a word to the network.
pub proof fn lemma_unreadable_cache(world: World, query: BookmarkQueryView)
    requires
        !query.forces_refresh(),
        world.disk.file is Some,
        !world.disk.readable(),
    ensures
        request(world, query).failed(ApiError::Io),
        !request(world, query).touches_network(),
{
    reveal_with_fuel(play, 5);
    lemma_load(world.disk);
}

/// A request that turns to its source and names none fails with an internal
/// failure and asks the network for nothing.
pub proof fn lemma_no_source(world: World, query: BookmarkQueryView)
    requires
        must_fetch(world, query),
        query.source_url().len() == 0,
    ensures
        request(world, query).failed(ApiError::Internal),
        !request(world, query).touches_network(),
        request(world, query).world == world,
{
    reveal_with_fuel(play, 5);
    lemma_load(world.disk);
}

/// A request that forces a refresh and names a source fetches from it
/// first of all, whatever the cache holds, and never reads the cache.
pub proof fn lemma_forced_fetch(world: World, query: BookmarkQueryView)
    requires
        query.forces_refresh(),
        query.source_url().len() > 0,
    ensures
        request(world, query).actions[0] == fetch_of(query.source_url()),
        request(world, query).touches_network(),
        !request(world, query).reads_cache(),
{
    reveal_with_fuel(play, 5);
    assert(request(world, query).fetches_at(0));
}

/// What a request that turns to a source receives. A source that gives no
/// answer, or whose body breaks off, fails the request with the transport's
/// failure; a status that is no success fails it with that very status; a
/// success serves the body as it came, whether the cache could be written
/// or not.
pub proof fn lemma_fetch_outcome(world: World, query: BookmarkQueryView)
    requires
        must_fetch(world, query),
        query.source_url().len() > 0,
    ensures
        request(world, query).touches_network(),
        match (world.sources)(query.source_url()) {
            Reply::Unreachable { carried } => request(world, query).failed(
                ApiError::Request(carried),
            ),
            Reply::Complete { status, body } => if status.is_success() {
                request(world, query).served(body)
            } else {
                request(world, query).failed(ApiError::Upstream(status))
            },
            Reply::Truncated { status, carried } => if status.is_success() {
                request(world, query).failed(ApiError::Request(carried))
            } else {
                request(world, query).failed(ApiError::Upstream(status))
            },
        },
{
    reveal_with_fuel(play, 5);
    lemma_load(world.disk);
    Status::lemma_ok();
    if query.forces_refresh() {
        assert(request(world, query).fetches_at(0));
    } else {
        assert(request(world, query).fetches_at(1));
    }
}

/// What a request that turns to a source leaves in the cache. A fetch that
/// succeeded is written over whatever was there: where the disk refuses
/// nothing, the cache then holds exactly the body. A request that did not
/// get a body leaves the disk as it was.
pub proof fn lemma_fetch_overwrites(world: World, query: BookmarkQueryView)
    requires
        must_fetch(world, query),
        query.source_url().len() > 0,
    ensures
        match (world.sources)(query.source_url()) {
            Reply::Complete { status, body } if status.is_success() => request(
                world,
                query,
            ).world.disk == save(world.disk, body).1 && (world.disk.writable() ==> request(
                world,
                query,
            ).world.disk.file == Some(body)),
            _ => request(world, query).world.disk == world.disk,
        },
{
    reveal_with_fuel(play, 5);
    lemma_load(world.disk);
    match (world.sources)(query.source_url()) {
        Reply::Complete { status, body } => {
            lemma_save(world.disk, body);
        },
        _ => {},
    }
}

/// A payload that a request fetched and wrote is served again: a later
/// request that does not force a refresh, on the disk that the first one
/// left, receives exactly that payload and asks the network for nothing.
pub proof fn lemma_written_payload_is_served(
    world: World,
    first: BookmarkQueryView,
    payload: Seq<u8>,
    later_world: World,
    later: BookmarkQueryView,
)
    requires
        must_fetch(world, first),
        request(world, first).served(payload),
        world.disk.writable(),
        world.disk.readable(),
        later_world.disk == request(world, first).world.disk,
        !later.forces_refresh(),
    ensures
        request(later_world, later).served(payload),
        !request(later_world, later).touches_network(),
{
    lemma_request_ends(world, first);
    if first.source_url().len() == 0 {
        lemma_no_source(world, first);
    } else {
        lemma_fetch_outcome(world, first);
        lemma_fetch_overwrites(world, first);
        match (world.sources)(first.source_url()) {
            Reply::Complete { status, body } => {
                lemma_save(world.disk, body);
            },
            _ => {},
        }
        lemma_cache_hit(later_world, later, payload);
    }
}

/// A cache that cannot be written does not fail a fetch that succeeded: the
/// caller receives the body as it came, with the status of success.
pub proof fn lemma_failed_store_is_swallowed(world: World, query: BookmarkQueryView, body: Seq<u8>)
    requires
        must_fetch(world, query),
        query.source_url().len() > 0,
        (world.sources)(query.source_url()) matches Reply::Complete { status, body: sent }
            && status.is_success() && sent == body,
        !world.disk.writable(),
    ensures
        request(world, query).served(body),
        exists|at: int| request(world, query).stores_at(at),
{
    reveal_with_fuel(play, 5);
    lemma_load(world.disk);
    Status::lemma_ok();
    if query.forces_refresh() {
        assert(request(world, query).stores_at(2));
    } else {
        assert(request(world, query).stores_at(3));
    }
}

} // verus!
