//! Requests for the bookmark lists against a modelled upstream.

use crate::error::ApiError;
use crate::routes::gists::{
    bookmark_of, bookmarks_of, first_json, gists_request, gists_step, has_bookmark_marker,
    BookmarkListView, GistFileView, GistView, GistsActionView, GistsEventView, GistsState,
};
use crate::status::Status;
use vstd::prelude::*;

verus! {

/// What the request for the list of snippet records meets.
pub enum Listing {
    /// No answer comes. `carried` is the status that the transport's error
    /// carries, where it carries one.
    Unreachable { carried: Option<Status> },
    /// An answer with this status comes, and its body is a list of records.
    Records { status: Status, gists: Seq<GistView> },
    /// An answer with this status comes, and its body cannot be read or is
    /// no list of records.
    Garbled { status: Status, carried: Option<Status> },
}

impl Listing {
    /// The status of the upstream's answer, where one comes.
    pub open spec fn answered(self) -> Option<Status> {
        match self {
            Listing::Unreachable { carried } => None,
            Listing::Records { status, gists } => Some(status),
            Listing::Garbled { status, carried } => Some(status),
        }
    }
}

/// How the upstream answers an action.
pub open spec fn answer(listing: Listing, action: GistsActionView) -> GistsEventView {
    match action {
        GistsActionView::Send { request } => match listing {
            Listing::Unreachable { carried } => GistsEventView::Broken { carried },
            Listing::Records { status, gists } => GistsEventView::Answered { status },
            Listing::Garbled { status, carried } => GistsEventView::Answered { status },
        },
        _ => match listing {
            Listing::Records { status, gists } => GistsEventView::Decoded { gists },
            Listing::Garbled { status, carried } => GistsEventView::Broken { carried },
            Listing::Unreachable { carried } => GistsEventView::Broken { carried },
        },
    }
}

/// One request from its call to its answer.
pub struct Run {
    /// What the caller receives, where the request has ended.
    pub outcome: Option<Result<Seq<BookmarkListView>, ApiError>>,
    /// Everything that was done for the request, in order.
    pub actions: Seq<GistsActionView>,
}

/// The run that goes on from `state` with `event`, as far as `fuel` further
/// actions take it.
pub open spec fn play(state: GistsState, event: GistsEventView, listing: Listing, fuel: nat) -> Run
    decreases fuel,
{
    let (next, action) = gists_step(state, event);
    match action {
        GistsActionView::Respond { gists } => Run { outcome: Some(Ok(gists)), actions: seq![action] },
        GistsActionView::Fail { error } => Run { outcome: Some(Err(error)), actions: seq![action] },
        _ => if fuel == 0 {
            Run { outcome: None, actions: seq![action] }
        } else {
            let rest = play(next, answer(listing, action), listing, (fuel - 1) as nat);
            Run { outcome: rest.outcome, actions: seq![action] + rest.actions }
        },
    }
}

/// The run of one request for the bookmark lists on behalf of `credential`.
pub open spec fn request(listing: Listing, credential: Seq<char>) -> Run {
    play(GistsState::Idle, GistsEventView::Call { credential }, listing, 2)
}

/// What a request for the bookmark lists receives, and what it does for it.
/// It sends one request, which bears the credential, and nothing else goes
/// out. A status that is no success fails it with that very status, and no
/// list comes back, not even a part of one. An upstream that gives no answer
/// or no list of records fails it with the transport's failure. Records are
/// answered with their bookmark lists; that there are none is no failure.
pub proof fn lemma_request(listing: Listing, credential: Seq<char>)
    ensures
        request(listing, credential).actions[0] == (GistsActionView::Send {
            request: gists_request(credential),
        }),
        forall|at: int|
            1 <= at < request(listing, credential).actions.len() ==> !(request(
                listing,
                credential,
            ).actions[at] is Send),
        request(listing, credential).outcome == Some(
            match listing {
                Listing::Unreachable { carried } => Err::<Seq<BookmarkListView>, ApiError>(
                    ApiError::Request(carried),
                ),
                Listing::Records { status, gists } => if status.is_success() {
                    Ok(bookmarks_of(gists))
                } else {
                    Err(ApiError::Upstream(status))
                },
                Listing::Garbled { status, carried } => if status.is_success() {
                    Err(ApiError::Request(carried))
                } else {
                    Err(ApiError::Upstream(status))
                },
            },
        ),
{
    reveal_with_fuel(play, 3);
}

/// An answer from the upstream that is no success yields an error that
/// carries the upstream's status to the caller, and no bookmark list.
pub proof fn lemma_upstream_failure(listing: Listing, credential: Seq<char>, status: Status)
    requires
        !status.is_success(),
        listing.answered() == Some(status),
    ensures
        request(listing, credential).outcome == Some(
            Err::<Seq<BookmarkListView>, ApiError>(ApiError::Upstream(status)),
        ),
        ApiError::Upstream(status).status_code() == status.code(),
        forall|at: int|
            0 <= at < request(listing, credential).actions.len() ==> !(request(
                listing,
                credential,
            ).actions[at] is Respond),
{
    reveal_with_fuel(play, 3);
}

/// The first JSON attachment is the one before which no attachment is JSON;
/// there is none exactly where no attachment is JSON.
pub proof fn lemma_first_json(files: Seq<(Seq<char>, GistFileView)>)
    ensures
        match first_json(files) {
            Some(file) => exists|at: int|
                0 <= at < files.len() && #[trigger] files[at].1 == file && file.is_json() && forall|
                    before: int,
                |
                    0 <= before < at ==> !(#[trigger] files[before]).1.is_json(),
            None => forall|at: int| 0 <= at < files.len() ==> !(#[trigger] files[at]).1.is_json(),
        },
    decreases files.len(),
{
    if files.len() > 0 && !files.first().1.is_json() {
        let rest = files.drop_first();
        lemma_first_json(rest);
        match first_json(rest) {
            Some(file) => {
                let at = choose|at: int|
                    0 <= at < rest.len() && #[trigger] rest[at].1 == file && file.is_json() && forall|
                        before: int,
                    |
                        0 <= before < at ==> !(#[trigger] rest[before]).1.is_json();
                assert(files[at + 1] == rest[at]);
                assert forall|before: int| 0 <= before < at + 1 implies !(
                #[trigger] files[before]).1.is_json() by {
                    if before > 0 {
                        assert(files[before] == rest[before - 1]);
                    }
                }
            },
            None => {
                assert forall|at: int| 0 <= at < files.len() implies !(
                #[trigger] files[at]).1.is_json() by {
                    if at > 0 {
                        assert(files[at] == rest[at - 1]);
                    }
                }
            },
        }
    } else if files.len() > 0 {
        assert(files[0].1 == files.first().1);
    }
}

/// A record gives a bookmark list exactly where its description bears the
/// marker and one of its attachments is JSON.
pub proof fn lemma_bookmark_iff(gist: GistView)
    ensures
        bookmark_of(gist) is Some <==> has_bookmark_marker(
            match gist.description {
                Some(text) => text,
                None => Seq::empty(),
            },
        ) && exists|at: int| 0 <= at < gist.files.len() && (#[trigger] gist.files[at]).1.is_json(),
{
    lemma_first_json(gist.files);
}

/// A record whose attachments are all of other media types gives no
/// bookmark list, whatever its description says.
pub proof fn lemma_no_json_no_bookmark(gist: GistView)
    requires
        forall|at: int| 0 <= at < gist.files.len() ==> !(#[trigger] gist.files[at]).1.is_json(),
    ensures
        bookmark_of(gist) is None,
{
    lemma_first_json(gist.files);
}

/// A record whose description does not bear the marker gives no bookmark
/// list, whatever it has attached; one without a description is such a
/// record.
pub proof fn lemma_unmarked_no_bookmark(gist: GistView)
    requires
        gist.description matches Some(text) ==> !has_bookmark_marker(text),
    ensures
        bookmark_of(gist) is None,
{
    if gist.description is None {
        lemma_marker_is_not_empty();
    }
}

/// The empty description does not bear the marker.
pub proof fn lemma_marker_is_not_empty()
    ensures
        !has_bookmark_marker(Seq::empty()),
{
    reveal_strlit("bookmark");
    reveal_strlit("ブックマーク");
}

/// The bookmark lists come in the order of the records: those of the
/// records that come first stand before those of the records that follow.
pub proof fn lemma_bookmarks_in_order(first: Seq<GistView>, rest: Seq<GistView>)
    ensures
        bookmarks_of(first + rest) == bookmarks_of(first) + bookmarks_of(rest),
    decreases rest.len(),
{
    if rest.len() == 0 {
        assert(first + rest == first);
    } else {
        assert((first + rest).drop_last() == first + rest.drop_last());
        lemma_bookmarks_in_order(first, rest.drop_last());
    }
}

/// Every bookmark list is the one that some record gives.
pub proof fn lemma_bookmark_has_its_record(gists: Seq<GistView>, at: int)
    requires
        0 <= at < bookmarks_of(gists).len(),
    ensures
        exists|record: int|
            0 <= record < gists.len() && bookmark_of(#[trigger] gists[record]) == Some(
                bookmarks_of(gists)[at],
            ),
    decreases gists.len(),
{
    let last = gists.len() - 1;
    let before = gists.drop_last();
    if at < bookmarks_of(before).len() {
        lemma_bookmark_has_its_record(before, at);
        let record = choose|record: int|
            0 <= record < before.len() && bookmark_of(#[trigger] before[record]) == Some(
                bookmarks_of(before)[at],
            );
        assert(gists[record] == before[record]);
    } else {
        assert(bookmark_of(gists[last]) == Some(bookmarks_of(gists)[at]));
    }
}

/// There are no more bookmark lists than records.
pub proof fn lemma_bookmarks_bounded(gists: Seq<GistView>)
    ensures
        bookmarks_of(gists).len() <= gists.len(),
    decreases gists.len(),
{
    if gists.len() > 0 {
        lemma_bookmarks_bounded(gists.drop_last());
    }
}

} // verus!
