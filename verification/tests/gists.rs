use api_server::error::ApiError;
use api_server::routes::gists::{
    build_request, collect_bookmarks, get_gists, is_bookmark_description, Gist, GistFile,
    GistFiles, GistsAction, GistsEvent, GistsResponse, GistsState,
};
use api_server::status::Status;

fn file(name: &str, media_type: &str, raw_url: &str) -> GistFile {
    GistFile {
        filename: name.to_string(),
        file_type: media_type.to_string(),
        language: None,
        raw_url: raw_url.to_string(),
        size: 0,
    }
}

fn files_of(entries: Vec<GistFile>) -> GistFiles {
    let mut files = GistFiles::new();
    for entry in entries {
        files.insert(entry.filename.clone(), entry);
    }
    files
}

fn gist(description: Option<&str>, entries: Vec<GistFile>, page: &str) -> Gist {
    Gist {
        files: files_of(entries),
        description: description.map(|text| text.to_string()),
        html_url: page.to_string(),
    }
}

fn status(code: u16) -> Status {
    Status::from_u16(code).unwrap()
}

#[test]
fn one_marked_record_with_json_gives_one_bookmark() {
    let gists = vec![
        gist(
            Some("my bookmark set"),
            vec![file("a.json", "application/json", "http://x/a")],
            "http://x/page",
        ),
        gist(Some("unrelated note"), vec![], "http://x/other"),
    ];
    let bookmarks = collect_bookmarks(&gists);
    assert_eq!(bookmarks.len(), 1);
    assert_eq!(bookmarks[0].title, "a.json");
    assert_eq!(bookmarks[0].url, "http://x/a");
    assert_eq!(bookmarks[0].html_url, "http://x/page");
}

#[test]
fn marked_record_with_only_plain_text_gives_no_bookmark() {
    let record = gist(
        Some("bookmark notes"),
        vec![file("a.txt", "text/plain", "http://x/a"), file("b.md", "text/plain", "http://x/b")],
        "http://x/page",
    );
    assert_eq!(record.to_bookmark(), None);
    assert_eq!(collect_bookmarks(&vec![record]).len(), 0);
}

#[test]
fn record_without_description_gives_no_bookmark() {
    let record = gist(None, vec![file("a.json", "application/json", "http://x/a")], "http://x/p");
    assert_eq!(record.to_bookmark(), None);
}

#[test]
fn marker_is_a_case_sensitive_substring() {
    assert!(is_bookmark_description("bookmark"));
    assert!(is_bookmark_description("mybookmarks2024"));
    assert!(is_bookmark_description("仕事用ブックマーク集"));
    assert!(!is_bookmark_description("Bookmark"));
    assert!(!is_bookmark_description("BOOKMARK"));
    assert!(!is_bookmark_description("book mark"));
    assert!(!is_bookmark_description("ブックマ"));
    assert!(!is_bookmark_description(""));
}

#[test]
fn media_type_must_match_exactly() {
    assert!(file("a", "application/json", "u").is_json());
    assert!(!file("a", "application/json; charset=utf-8", "u").is_json());
    assert!(!file("a", "Application/JSON", "u").is_json());
    assert!(!file("a", "application/jso", "u").is_json());
    assert!(!file("a", "", "u").is_json());
}

#[test]
fn first_json_attachment_in_order_is_taken() {
    let record = gist(
        Some("bookmark"),
        vec![
            file("readme.md", "text/markdown", "http://x/readme"),
            file("b.json", "application/json", "http://x/b"),
            file("a.json", "application/json", "http://x/a"),
        ],
        "http://x/page",
    );
    let bookmark = record.to_bookmark().unwrap();
    assert_eq!(bookmark.title, "b.json");
    assert_eq!(bookmark.url, "http://x/b");
    assert_eq!(bookmark.html_url, "http://x/page");
}

#[test]
fn bookmarks_keep_the_order_of_the_records() {
    let gists = vec![
        gist(Some("bookmark one"), vec![file("1.json", "application/json", "u1")], "p1"),
        gist(Some("nothing"), vec![file("2.json", "application/json", "u2")], "p2"),
        gist(Some("ブックマーク"), vec![file("3.json", "application/json", "u3")], "p3"),
        gist(Some("bookmark four"), vec![file("4.txt", "text/plain", "u4")], "p4"),
        gist(Some("bookmark five"), vec![file("5.json", "application/json", "u5")], "p5"),
    ];
    let titles: Vec<String> =
        collect_bookmarks(&gists).into_iter().map(|bookmark| bookmark.title).collect();
    assert_eq!(titles, vec!["1.json", "3.json", "5.json"]);
}

#[test]
fn insert_replaces_an_attachment_of_the_same_name_in_place() {
    let mut files = GistFiles::new();
    assert_eq!(files.len(), 0);
    assert_eq!(files.insert("a".to_string(), file("a", "text/plain", "old")), None);
    assert_eq!(files.insert("b".to_string(), file("b", "application/json", "b")), None);
    assert_eq!(files.len(), 2);
    let replaced = files.insert("a".to_string(), file("a", "application/json", "new"));
    assert_eq!(replaced, Some(file("a", "text/plain", "old")));
    assert_eq!(files.len(), 2);
    assert_eq!(files.first_json().unwrap().raw_url, "new");
}

#[test]
fn first_json_of_no_attachments_is_none() {
    assert_eq!(GistFiles::new().first_json(), None);
}

#[test]
fn request_bears_the_credential_and_the_fixed_headers() {
    let request = build_request("s3cret");
    assert_eq!(request.url, "https://api.github.com/gists");
    assert_eq!(request.authorization, "Bearer s3cret");
    assert_eq!(request.user_agent, "private_start_page/0.1");
    assert_eq!(request.accept, "application/vnd.github+json");
}

#[test]
fn call_sends_the_request() {
    let (state, action) =
        get_gists(GistsState::Idle, GistsEvent::Call { credential: "tok".to_string() });
    assert_eq!(state, GistsState::AwaitingStatus);
    assert_eq!(action, GistsAction::Send { request: build_request("tok") });
}

#[test]
fn success_status_has_the_body_decoded() {
    for code in [200u16, 204, 299] {
        let (state, action) =
            get_gists(GistsState::AwaitingStatus, GistsEvent::Answered { status: status(code) });
        assert_eq!(state, GistsState::AwaitingRecords);
        assert_eq!(action, GistsAction::Decode);
    }
}

#[test]
fn non_success_status_fails_with_that_status_and_no_list() {
    for code in [199u16, 300, 401, 404, 500, 503] {
        let (state, action) =
            get_gists(GistsState::AwaitingStatus, GistsEvent::Answered { status: status(code) });
        assert_eq!(state, GistsState::Done);
        assert_eq!(action, GistsAction::Fail { error: ApiError::Upstream(status(code)) });
        match action {
            GistsAction::Fail { error } => assert_eq!(error.status().as_u16(), code),
            _ => unreachable!(),
        }
    }
}

#[test]
fn decoded_records_are_answered_with_their_bookmarks() {
    let gists = vec![
        gist(Some("my bookmark set"), vec![file("a.json", "application/json", "http://x/a")], "p"),
        gist(Some("unrelated note"), vec![], "q"),
    ];
    let (state, action) = get_gists(GistsState::AwaitingRecords, GistsEvent::Decoded { gists });
    assert_eq!(state, GistsState::Done);
    match action {
        GistsAction::Respond { response } => {
            assert_eq!(response.gists.len(), 1);
            assert_eq!(response.gists[0].title, "a.json");
            assert_eq!(response.gists[0].url, "http://x/a");
            assert_eq!(response.gists[0].html_url, "p");
        },
        other => panic!("unexpected action {:?}", other),
    }
}

#[test]
fn no_records_is_an_empty_answer_and_no_failure() {
    let (state, action) =
        get_gists(GistsState::AwaitingRecords, GistsEvent::Decoded { gists: vec![] });
    assert_eq!(state, GistsState::Done);
    assert_eq!(action, GistsAction::Respond { response: GistsResponse { gists: vec![] } });
}

#[test]
fn broken_exchange_fails_with_the_transport_failure() {
    let (state, action) =
        get_gists(GistsState::AwaitingStatus, GistsEvent::Broken { carried: None });
    assert_eq!(state, GistsState::Done);
    assert_eq!(action, GistsAction::Fail { error: ApiError::Request(None) });
    let (state, action) = get_gists(
        GistsState::AwaitingRecords,
        GistsEvent::Broken { carried: Some(status(200)) },
    );
    assert_eq!(state, GistsState::Done);
    assert_eq!(action, GistsAction::Fail { error: ApiError::Request(Some(status(200))) });
}

#[test]
fn unawaited_event_ends_with_an_internal_failure() {
    let internal = GistsAction::Fail { error: ApiError::Internal };
    let (state, action) =
        get_gists(GistsState::Idle, GistsEvent::Answered { status: status(200) });
    assert_eq!((state, action), (GistsState::Done, GistsAction::Fail { error: ApiError::Internal }));
    let (_, action) = get_gists(GistsState::AwaitingStatus, GistsEvent::Decoded { gists: vec![] });
    assert_eq!(action, internal);
    let (_, action) =
        get_gists(GistsState::Done, GistsEvent::Call { credential: "tok".to_string() });
    assert_eq!(action, internal);
}
