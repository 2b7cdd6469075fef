//! Snippet records and the bookmarks that are read out of them.

use crate::error::ApiError;
use crate::status::Status;
use crate::text::{contains, equal, has_substring};
use vstd::pervasive::VecAdditionalExecFns;
use vstd::prelude::*;
use vstd::string::StringExecFns;

verus! {

/// One attachment of a snippet record.
#[derive(Debug, PartialEq, Eq)]
pub struct GistFile {
    pub filename: String,
    /// The media type, such as `application/json`.
    pub file_type: String,
    pub language: Option<String>,
    /// Where the attachment's content can be fetched.
    pub raw_url: String,
    pub size: i32,
}

/// What a `GistFile` holds.
pub struct GistFileView {
    pub filename: Seq<char>,
    pub file_type: Seq<char>,
    pub language: Option<Seq<char>>,
    pub raw_url: Seq<char>,
    pub size: int,
}

impl GistFileView {
    /// Whether the attachment's media type is exactly `application/json`.
    pub open spec fn is_json(self) -> bool {
        self.file_type == "application/json"@
    }
}

impl View for GistFile {
    type V = GistFileView;

    open spec fn view(&self) -> GistFileView {
        GistFileView {
            filename: self.filename@,
            file_type: self.file_type@,
            language: self.language.deep_view(),
            raw_url: self.raw_url@,
            size: self.size as int,
        }
    }
}

impl DeepView for GistFile {
    type V = GistFileView;

    open spec fn deep_view(&self) -> GistFileView {
        self@
    }
}

impl GistFile {
    /// Whether the attachment's media type is exactly `application/json`.
    pub fn is_json(&self) -> (yes: bool)
        ensures
            yes == self@.is_json(),
    {
        equal(self.file_type.as_str(), "application/json")
    }
}

/// Whether no two of the entries bear the same name.
pub open spec fn names_distinct(files: Seq<(Seq<char>, GistFileView)>) -> bool {
    forall|i: int, j: int| 0 <= i < j < files.len() ==> files[i].0 != files[j].0
}

/// Whether no entry bears the name `name`.
pub open spec fn name_is_new(files: Seq<(Seq<char>, GistFileView)>, name: Seq<char>) -> bool {
    forall|i: int| 0 <= i < files.len() ==> (#[trigger] files[i]).0 != name
}

/// The first attachment in the order of `files` whose media type is
/// `application/json`, if there is one.
pub open spec fn first_json(files: Seq<(Seq<char>, GistFileView)>) -> Option<GistFileView>
    decreases files.len(),
{
    if files.len() == 0 {
        None
    } else if files.first().1.is_json() {
        Some(files.first().1)
    } else {
        first_json(files.drop_first())
    }
}

/// Files `file` under `name` in `entries`, in place of the entry that bears
/// the name or, where none does, at the end.
fn put(entries: &mut Vec<(String, GistFile)>, name: String, file: GistFile) -> (replaced: Option<
    GistFile,
>)
    requires
        names_distinct(old(entries).deep_view()),
    ensures
        names_distinct(final(entries).deep_view()),
        match replaced {
            Some(prior) => exists|i: int|
                0 <= i < old(entries).len() && old(entries).deep_view()[i] == (name@, prior@)
                    && final(entries).deep_view() == old(entries).deep_view().update(
                    i,
                    (name@, file@),
                ),
            None => name_is_new(old(entries).deep_view(), name@) && final(entries).deep_view()
                == old(entries).deep_view().push((name@, file@)),
        },
{
    let ghost before = entries.deep_view();
    let mut at: usize = 0;
    while at < entries.len()
        invariant
            at <= entries.len(),
            *entries == *old(entries),
            before == entries.deep_view(),
            names_distinct(before),
            forall|i: int| 0 <= i < at ==> (#[trigger] before[i]).0 != name@,
        decreases entries.len() - at,
    {
        if equal(entries[at].0.as_str(), name.as_str()) {
            let mut slot = (name, file);
            entries.set_and_swap(at, &mut slot);
            proof {
                assert(entries.deep_view() =~= before.update(at as int, (name@, file@)));
                assert(before[at as int] == (name@, slot.1@));
                assert forall|i: int, j: int| 0 <= i < j < before.len() implies entries.deep_view()[i].0
                    != entries.deep_view()[j].0 by {
                    assert(entries.deep_view()[i].0 == before[i].0);
                    assert(entries.deep_view()[j].0 == before[j].0);
                }
            }
            return Some(slot.1);
        }
        at += 1;
    }
    entries.push((name, file));
    proof {
        assert(entries.deep_view() =~= before.push((name@, file@)));
    }
    None
}

/// The attachments of a record under their names, in the order in which the
/// upstream listed them. No name occurs twice.
#[derive(Debug, PartialEq, Eq)]
pub struct GistFiles {
    entries: Vec<(String, GistFile)>,
}

impl View for GistFiles {
    type V = Seq<(Seq<char>, GistFileView)>;

    closed spec fn view(&self) -> Seq<(Seq<char>, GistFileView)> {
        self.entries.deep_view()
    }
}

impl DeepView for GistFiles {
    type V = Seq<(Seq<char>, GistFileView)>;

    open spec fn deep_view(&self) -> Seq<(Seq<char>, GistFileView)> {
        self@
    }
}

impl GistFiles {
    #[verifier::type_invariant]
    spec fn distinct(&self) -> bool {
        names_distinct(self@)
    }

    /// No attachments.
    pub fn new() -> (files: GistFiles)
        ensures
            files@ == Seq::<(Seq<char>, GistFileView)>::empty(),
    {
        GistFiles { entries: Vec::new() }
    }

    /// The number of attachments.
    pub fn len(&self) -> (len: usize)
        ensures
            len == self@.len(),
            names_distinct(self@),
    {
        proof {
            use_type_invariant(self);
        }
        self.entries.len()
    }

    /// Files `file` under `name`. Where an attachment already bears the name,
    /// `file` takes its place in the order and the earlier one is returned;
    /// otherwise `file` comes last.
    pub fn insert(&mut self, name: String, file: GistFile) -> (replaced: Option<GistFile>)
        ensures
            names_distinct(final(self)@),
            match replaced {
                Some(prior) => exists|i: int|
                    0 <= i < old(self)@.len() && old(self)@[i] == (name@, prior@) && final(self)@
                        == old(self)@.update(i, (name@, file@)),
                None => name_is_new(old(self)@, name@) && final(self)@ == old(self)@.push(
                    (name@, file@),
                ),
            },
    {
        proof {
            use_type_invariant(&*self);
        }
        let mut entries: Vec<(String, GistFile)> = Vec::new();
        core::mem::swap(&mut self.entries, &mut entries);
        let replaced = put(&mut entries, name, file);
        core::mem::swap(&mut self.entries, &mut entries);
        replaced
    }

    /// The first attachment whose media type is `application/json`.
    pub fn first_json(&self) -> (found: Option<&GistFile>)
        ensures
            found.deep_view() == first_json(self@),
    {
        let mut at: usize = 0;
        proof {
            assert(self@.subrange(0, self@.len() as int) == self@);
        }
        while at < self.entries.len()
            invariant
                at <= self.entries.len(),
                first_json(self@) == first_json(self@.subrange(at as int, self@.len() as int)),
            decreases self.entries.len() - at,
        {
            let file = &self.entries[at].1;
            if file.is_json() {
                return Some(file);
            }
            proof {
                let rest = self@.subrange(at as int, self@.len() as int);
                assert(rest.drop_first() == self@.subrange(at + 1, self@.len() as int));
            }
            at += 1;
        }
        None
    }
}

/// A snippet record as the upstream lists it.
#[derive(Debug, PartialEq, Eq)]
pub struct Gist {
    pub files: GistFiles,
    pub description: Option<String>,
    /// The page on which a person views the record.
    pub html_url: String,
}

/// What a `Gist` holds.
pub struct GistView {
    pub files: Seq<(Seq<char>, GistFileView)>,
    pub description: Option<Seq<char>>,
    pub html_url: Seq<char>,
}

impl View for Gist {
    type V = GistView;

    open spec fn view(&self) -> GistView {
        GistView {
            files: self.files@,
            description: self.description.deep_view(),
            html_url: self.html_url@,
        }
    }
}

impl DeepView for Gist {
    type V = GistView;

    open spec fn deep_view(&self) -> GistView {
        self@
    }
}

/// One bookmark list that the dashboard can load.
#[derive(Debug, PartialEq, Eq)]
pub struct BookmarkList {
    /// The name of the attachment that holds the list.
    pub title: String,
    /// Where the attachment's content can be fetched.
    pub url: String,
    /// The page of the record that the attachment belongs to.
    pub html_url: String,
}

/// What a `BookmarkList` holds.
pub struct BookmarkListView {
    pub title: Seq<char>,
    pub url: Seq<char>,
    pub html_url: Seq<char>,
}

impl View for BookmarkList {
    type V = BookmarkListView;

    open spec fn view(&self) -> BookmarkListView {
        BookmarkListView { title: self.title@, url: self.url@, html_url: self.html_url@ }
    }
}

impl DeepView for BookmarkList {
    type V = BookmarkListView;

    open spec fn deep_view(&self) -> BookmarkListView {
        self@
    }
}

/// The answer to a request for the bookmark lists.
#[derive(Debug, PartialEq, Eq)]
pub struct GistsResponse {
    pub gists: Vec<BookmarkList>,
}

impl View for GistsResponse {
    type V = Seq<BookmarkListView>;

    open spec fn view(&self) -> Seq<BookmarkListView> {
        self.gists.deep_view()
    }
}

/// Whether a description marks its record as bookmark data: it holds the
/// word `bookmark` or its Japanese form somewhere, in exactly these letters.
pub open spec fn has_bookmark_marker(description: Seq<char>) -> bool {
    has_substring(description, "bookmark"@) || has_substring(description, "ブックマーク"@)
}

/// The bookmark list that a record gives: none unless its description bears
/// the marker and one of its attachments is JSON; else the first such
/// attachment, with the record's page.
pub open spec fn bookmark_of(gist: GistView) -> Option<BookmarkListView> {
    let description = match gist.description {
        Some(text) => text,
        None => Seq::empty(),
    };
    if has_bookmark_marker(description) {
        match first_json(gist.files) {
            Some(file) => Some(
                BookmarkListView {
                    title: file.filename,
                    url: file.raw_url,
                    html_url: gist.html_url,
                },
            ),
            None => None,
        }
    } else {
        None
    }
}

/// The bookmark lists that the records give, in the order of the records; a
/// record that gives none is passed over.
pub open spec fn bookmarks_of(gists: Seq<GistView>) -> Seq<BookmarkListView> {
    gists.filter_map(|gist: GistView| bookmark_of(gist))
}

/// Whether a description marks its record as bookmark data.
pub fn is_bookmark_description(description: &str) -> (yes: bool)
    ensures
        yes == has_bookmark_marker(description@),
{
    contains(description, "bookmark") || contains(description, "ブックマーク")
}

impl Gist {
    /// The bookmark list that this record gives, if it gives one.
    pub fn to_bookmark(&self) -> (bookmark: Option<BookmarkList>)
        ensures
            bookmark.deep_view() == bookmark_of(self@),
    {
        let marked = match &self.description {
            Some(text) => is_bookmark_description(text.as_str()),
            None => {
                proof {
                    reveal_strlit("");
                    assert(""@ == Seq::<char>::empty());
                }
                is_bookmark_description("")
            },
        };
        if !marked {
            return None;
        }
        match self.files.first_json() {
            Some(file) => Some(
                BookmarkList {
                    title: file.filename.clone(),
                    url: file.raw_url.clone(),
                    html_url: self.html_url.clone(),
                },
            ),
            None => None,
        }
    }
}

/// The bookmark lists that the records give, in the order of the records.
pub fn collect_bookmarks(gists: &Vec<Gist>) -> (bookmarks: Vec<BookmarkList>)
    ensures
        bookmarks.deep_view() == bookmarks_of(gists.deep_view()),
{
    let mut bookmarks: Vec<BookmarkList> = Vec::new();
    let mut at: usize = 0;
    while at < gists.len()
        invariant
            at <= gists.len(),
            bookmarks.deep_view() == bookmarks_of(gists.deep_view().take(at as int)),
        decreases gists.len() - at,
    {
        let ghost before = bookmarks.deep_view();
        proof {
            gists.deep_view().lemma_filter_map_take_succ(|gist: GistView| bookmark_of(gist), at as int);
        }
        if let Some(bookmark) = gists[at].to_bookmark() {
            let ghost added = bookmark@;
            bookmarks.push(bookmark);
            proof {
                assert(bookmarks.deep_view() =~= before + seq![added]);
            }
        }
        at += 1;
    }
    proof {
        assert(gists.deep_view().take(at as int) == gists.deep_view());
    }
    bookmarks
}

/// The request that asks the upstream for the list of snippet records.
#[derive(Debug, PartialEq, Eq)]
pub struct GistsRequest {
    /// Where the `GET` goes.
    pub url: String,
    /// The value of the `Authorization` header.
    pub authorization: String,
    /// The value of the `User-Agent` header.
    pub user_agent: String,
    /// The value of the `Accept` header.
    pub accept: String,
}

/// What a `GistsRequest` holds.
pub struct GistsRequestView {
    pub url: Seq<char>,
    pub authorization: Seq<char>,
    pub user_agent: Seq<char>,
    pub accept: Seq<char>,
}

impl View for GistsRequest {
    type V = GistsRequestView;

    open spec fn view(&self) -> GistsRequestView {
        GistsRequestView {
            url: self.url@,
            authorization: self.authorization@,
            user_agent: self.user_agent@,
            accept: self.accept@,
        }
    }
}

/// The request for the list of snippet records on behalf of `credential`:
/// the fixed endpoint, the credential as a bearer token, the gateway's name
/// and the wish for the structured JSON form.
pub open spec fn gists_request(credential: Seq<char>) -> GistsRequestView {
    GistsRequestView {
        url: "https://api.github.com/gists"@,
        authorization: "Bearer "@ + credential,
        user_agent: "private_start_page/0.1"@,
        accept: "application/vnd.github+json"@,
    }
}

/// How far the answer to one request for the bookmark lists has come.
#[derive(Clone, Copy, Debug, PartialEq, Eq)]
pub enum GistsState {
    /// Nothing has been asked yet.
    Idle,
    /// The request is on its way; the upstream's status is awaited.
    AwaitingStatus,
    /// The upstream reported success; its records are awaited.
    AwaitingRecords,
    /// The caller has its answer.
    Done,
}

/// What happened since the last step.
#[derive(Debug, PartialEq, Eq)]
pub enum GistsEvent {
    /// A caller asks for the bookmark lists.
    Call { credential: String },
    /// The upstream answered with this status.
    Answered { status: Status },
    /// The upstream's body was read and held these records.
    Decoded { gists: Vec<Gist> },
    /// The exchange broke off: no answer came, or the body could not be read
    /// or was not a list of records. `carried` is the status that the
    /// transport's error carries, where it carries one.
    Broken { carried: Option<Status> },
}

/// What a `GistsEvent` holds.
pub enum GistsEventView {
    Call { credential: Seq<char> },
    Answered { status: Status },
    Decoded { gists: Seq<GistView> },
    Broken { carried: Option<Status> },
}

impl View for GistsEvent {
    type V = GistsEventView;

    open spec fn view(&self) -> GistsEventView {
        match self {
            GistsEvent::Call { credential } => GistsEventView::Call { credential: credential@ },
            GistsEvent::Answered { status } => GistsEventView::Answered { status: *status },
            GistsEvent::Decoded { gists } => GistsEventView::Decoded { gists: gists.deep_view() },
            GistsEvent::Broken { carried } => GistsEventView::Broken { carried: *carried },
        }
    }
}

/// What is to be done next.
#[derive(Debug, PartialEq, Eq)]
pub enum GistsAction {
    /// Send this request and report the status of the answer.
    Send { request: GistsRequest },
    /// Read the answer's body as a list of records and report them.
    Decode,
    /// Answer the caller with these bookmark lists.
    Respond { response: GistsResponse },
    /// Answer the caller with this failure.
    Fail { error: ApiError },
}

/// What a `GistsAction` holds.
pub enum GistsActionView {
    Send { request: GistsRequestView },
    Decode,
    Respond { gists: Seq<BookmarkListView> },
    Fail { error: ApiError },
}

impl View for GistsAction {
    type V = GistsActionView;

    open spec fn view(&self) -> GistsActionView {
        match self {
            GistsAction::Send { request } => GistsActionView::Send { request: request@ },
            GistsAction::Decode => GistsActionView::Decode,
            GistsAction::Respond { response } => GistsActionView::Respond { gists: response@ },
            GistsAction::Fail { error } => GistsActionView::Fail { error: *error },
        }
    }
}

/// One step of answering a request for the bookmark lists: the state after
/// `event` and what is to be done next.
///
/// A call sends the request. A status that reports success has the body
/// decoded; any other ends the request with that status, and no list. The
/// decoded records are answered with their bookmark lists, be they none. An
/// exchange that breaks off ends the request with the transport's failure.
/// An event that the state does not await ends it with an internal failure.
pub open spec fn gists_step(state: GistsState, event: GistsEventView) -> (
    GistsState,
    GistsActionView,
) {
    match (state, event) {
        (GistsState::Idle, GistsEventView::Call { credential }) => (
            GistsState::AwaitingStatus,
            GistsActionView::Send { request: gists_request(credential) },
        ),
        (GistsState::AwaitingStatus, GistsEventView::Answered { status }) => if status.is_success() {
            (GistsState::AwaitingRecords, GistsActionView::Decode)
        } else {
            (GistsState::Done, GistsActionView::Fail { error: ApiError::Upstream(status) })
        },
        (GistsState::AwaitingRecords, GistsEventView::Decoded { gists }) => (
            GistsState::Done,
            GistsActionView::Respond { gists: bookmarks_of(gists) },
        ),
        (GistsState::AwaitingStatus, GistsEventView::Broken { carried }) => (
            GistsState::Done,
            GistsActionView::Fail { error: ApiError::Request(carried) },
        ),
        (GistsState::AwaitingRecords, GistsEventView::Broken { carried }) => (
            GistsState::Done,
            GistsActionView::Fail { error: ApiError::Request(carried) },
        ),
        _ => (GistsState::Done, GistsActionView::Fail { error: ApiError::Internal }),
    }
}

/// The request for the list of snippet records on behalf of `credential`.
pub fn build_request(credential: &str) -> (request: GistsRequest)
    ensures
        request@ == gists_request(credential@),
{
    GistsRequest {
        url: "https://api.github.com/gists".to_owned(),
        authorization: "Bearer ".to_owned().concat(credential),
        user_agent: "private_start_page/0.1".to_owned(),
        accept: "application/vnd.github+json".to_owned(),
    }
}

/// One step of answering a request for the bookmark lists. The caller of
/// this function does what the action says and comes back with the event
/// that resulted, until the action is `Respond` or `Fail`.
pub fn get_gists(state: GistsState, event: GistsEvent) -> (next: (GistsState, GistsAction))
    ensures
        (next.0, next.1@) == gists_step(state, event@),
{
    match (state, event) {
        (GistsState::Idle, GistsEvent::Call { credential }) => (
            GistsState::AwaitingStatus,
            GistsAction::Send { request: build_request(credential.as_str()) },
        ),
        (GistsState::AwaitingStatus, GistsEvent::Answered { status }) => if status.is_success() {
            (GistsState::AwaitingRecords, GistsAction::Decode)
        } else {
            (GistsState::Done, GistsAction::Fail { error: ApiError::Upstream(status) })
        },
        (GistsState::AwaitingRecords, GistsEvent::Decoded { gists }) => (
            GistsState::Done,
            GistsAction::Respond { response: GistsResponse { gists: collect_bookmarks(&gists) } },
        ),
        (GistsState::AwaitingStatus, GistsEvent::Broken { carried }) => (
            GistsState::Done,
            GistsAction::Fail { error: ApiError::Request(carried) },
        ),
        (GistsState::AwaitingRecords, GistsEvent::Broken { carried }) => (
            GistsState::Done,
            GistsAction::Fail { error: ApiError::Request(carried) },
        ),
        _ => (GistsState::Done, GistsAction::Fail { error: ApiError::Internal }),
    }
}

} // verus!
