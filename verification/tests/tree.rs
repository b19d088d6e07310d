use orca::ApiError;
use orca::App;
use orca::comment::Comment;
use orca::listing::Listing;
use orca::request::HttpEvent;

fn event(status: u16, body: &str) -> HttpEvent {
    HttpEvent::Response { status, body: body.to_string() }
}

fn loaded(id: &str) -> Comment {
    Comment::Loaded {
        id: id.to_string(),
        author: "someone".to_string(),
        body: "text".to_string(),
        created_at: 1,
        replies: Listing::empty(),
    }
}

fn stub_tree() -> Listing<Comment> {
    Listing {
        children: vec![
            loaded("x"),
            Comment::NotLoaded {
                parent_id: "t1_x".to_string(),
                child_ids: vec!["k1".to_string(), "k2".to_string()],
            },
            loaded("y"),
        ],
        before: None,
        after: None,
    }
}

const TREE_BODY: &str = r#"[
  {"kind": "Listing", "data": {"children": [], "after": null, "before": null}},
  {"kind": "Listing", "data": {
    "children": [
      {"kind": "t1", "data": {"id": "c1", "author": "alice", "body": "hello",
        "created_utc": 100,
        "replies": {"kind": "Listing", "data": {"children": [
          {"kind": "t1", "data": {"id": "c2", "author": "bob", "body": "hi",
            "created_utc": 150, "replies": ""}}
        ], "after": null, "before": null}}}},
      {"kind": "more", "data": {"parent_id": "t1_c1",
        "children": ["c3", "c4", "c5"]}}
    ],
    "after": "cursorA", "before": null}}
]"#;

const MORE_BODY: &str = r#"{"kind": "Listing", "data": {"children": [
  {"kind": "t1", "data": {"id": "k1", "author": "carol", "body": "one",
    "created_utc": 7, "replies": ""}},
  {"kind": "t1", "data": {"id": "k2", "author": "dave", "body": "two",
    "created_utc": 8, "replies": null}}
], "after": null, "before": null}}"#;

#[test]
fn comment_tree_round_trip() {
    let app = App::new("testapp", "0.1", "tester").unwrap();
    let tree = app.get_comment_tree(&event(200, TREE_BODY)).unwrap();
    assert_eq!(tree.after, Some("cursorA".to_string()));
    assert_eq!(tree.before, None);
    assert_eq!(tree.children.len(), 2);
    match &tree.children[0] {
        Comment::Loaded { id, author, body, created_at, replies } => {
            assert_eq!(id.as_str(), "c1");
            assert_eq!(author.as_str(), "alice");
            assert_eq!(body.as_str(), "hello");
            assert_eq!(*created_at, 100);
            assert_eq!(replies.children.len(), 1);
            match &replies.children[0] {
                Comment::Loaded { id, author, body, created_at, replies } => {
                    assert_eq!(id.as_str(), "c2");
                    assert_eq!(author.as_str(), "bob");
                    assert_eq!(body.as_str(), "hi");
                    assert_eq!(*created_at, 150);
                    assert_eq!(replies.children.len(), 0);
                },
                other => panic!("expected a loaded reply, got {:?}", other),
            }
        },
        other => panic!("expected a loaded comment, got {:?}", other),
    }
    match &tree.children[1] {
        Comment::NotLoaded { parent_id, child_ids } => {
            assert_eq!(parent_id.as_str(), "t1_c1");
            assert_eq!(
                child_ids,
                &vec!["c3".to_string(), "c4".to_string(), "c5".to_string()],
            );
        },
        other => panic!("expected a stub, got {:?}", other),
    }
}

#[test]
fn comment_tree_needs_two_sections() {
    let app = App::new("testapp", "0.1", "tester").unwrap();
    let body = r#"[{"kind": "Listing", "data": {"children": [], "after": null, "before": null}}]"#;
    assert_eq!(app.get_comment_tree(&event(200, body)), Err(ApiError::BadResponse));
}

#[test]
fn comment_tree_surfaces_fetch_errors() {
    let app = App::new("testapp", "0.1", "tester").unwrap();
    assert_eq!(app.get_comment_tree(&event(404, "")), Err(ApiError::NotFound));
    assert_eq!(
        app.get_comment_tree(&HttpEvent::TransportFailure),
        Err(ApiError::Transient),
    );
}

#[test]
fn malformed_entry_is_a_bad_response() {
    let app = App::new("testapp", "0.1", "tester").unwrap();
    // the entry has no author field, so the page does not materialize
    let body = r#"[
      {"kind": "Listing", "data": {"children": [], "after": null, "before": null}},
      {"kind": "Listing", "data": {"children": [
        {"kind": "t1", "data": {"id": "c1", "body": "hello", "created_utc": 1,
          "replies": ""}}
      ], "after": null, "before": null}}
    ]"#;
    assert_eq!(app.get_comment_tree(&event(200, body)), Err(ApiError::BadResponse));
}

#[test]
fn resolve_replaces_the_stub_in_place() {
    let app = App::new("testapp", "0.1", "tester").unwrap();
    let mut tree = stub_tree();
    app.more_children(&mut tree, 1, &event(200, MORE_BODY)).unwrap();
    assert_eq!(tree.children.len(), 4);
    let ids: Vec<&str> = tree
        .children
        .iter()
        .map(|c| match c {
            Comment::Loaded { id, .. } => id.as_str(),
            Comment::NotLoaded { .. } => panic!("no stub may remain"),
        })
        .collect();
    assert_eq!(ids, vec!["x", "k1", "k2", "y"]);
}

#[test]
fn resolving_twice_yields_equal_trees() {
    let app = App::new("testapp", "0.1", "tester").unwrap();
    let mut first = stub_tree();
    app.more_children(&mut first, 1, &event(200, MORE_BODY)).unwrap();
    let mut second = stub_tree();
    app.more_children(&mut second, 1, &event(200, MORE_BODY)).unwrap();
    assert_eq!(first, second);
}

#[test]
fn failed_resolve_leaves_the_tree_untouched() {
    let app = App::new("testapp", "0.1", "tester").unwrap();
    let mut tree = stub_tree();
    assert_eq!(
        app.more_children(&mut tree, 1, &event(500, "")),
        Err(ApiError::BadResponse),
    );
    assert_eq!(tree, stub_tree());
    assert_eq!(
        app.more_children(&mut tree, 1, &HttpEvent::TransportFailure),
        Err(ApiError::Transient),
    );
    assert_eq!(tree, stub_tree());
}
