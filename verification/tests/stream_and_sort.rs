use orca::App;
use orca::comment::Comment;
use orca::listing::{FetchPlan, Listing, Paginator};
use orca::sort::{Sort, SortTime};
use orca::stream::StreamPlan;

fn loaded(id: &str) -> Comment {
    Comment::Loaded {
        id: id.to_string(),
        author: "someone".to_string(),
        body: "text".to_string(),
        created_at: 1,
        replies: Listing::empty(),
    }
}

fn ids(out: &[Comment]) -> Vec<&str> {
    out.iter()
        .map(|c| match c {
            Comment::Loaded { id, .. } => id.as_str(),
            Comment::NotLoaded { .. } => panic!("streams emit loaded comments only"),
        })
        .collect()
}

#[test]
fn pagination_yields_all_items_in_order() {
    let mut p = Paginator::new();
    assert_eq!(p.plan(), FetchPlan::Start);
    let p0 = Listing { children: vec![1, 2], before: None, after: Some("c1".to_string()) };
    p.advance(&p0);
    assert_eq!(p.plan(), FetchPlan::After("c1".to_string()));
    let p1 = Listing { children: vec![3], before: None, after: Some("c2".to_string()) };
    p.advance(&p1);
    assert_eq!(p.plan(), FetchPlan::After("c2".to_string()));
    let p2 = Listing { children: vec![4, 5], before: None, after: None };
    p.advance(&p2);
    assert_eq!(p.plan(), FetchPlan::Finished);
    let all: Vec<i32> = [p0.children, p1.children, p2.children].concat();
    assert_eq!(all, vec![1, 2, 3, 4, 5]);
}

#[test]
fn empty_page_exhausts_the_paginator() {
    let mut p = Paginator::new();
    let page: Listing<i32> = Listing {
        children: vec![],
        before: None,
        after: Some("c9".to_string()),
    };
    p.advance(&page);
    assert_eq!(p.plan(), FetchPlan::Finished);
}

#[test]
fn fresh_paginator_restarts_from_the_start() {
    let mut p = Paginator::new();
    let page: Listing<i32> = Listing { children: vec![1], before: None, after: None };
    p.advance(&page);
    assert_eq!(p.plan(), FetchPlan::Finished);
    // an exhausted paginator is not restartable; a new one is
    let fresh = Paginator::new();
    assert_eq!(fresh.plan(), FetchPlan::Start);
}

#[test]
fn stream_dedups_across_polls() {
    let app = App::new("testapp", "0.1", "tester").unwrap();
    let mut stream = app.get_comments("rust");
    assert_eq!(stream.subreddit, "rust");
    assert_eq!(stream.plan(), StreamPlan::Backfill(FetchPlan::Start));
    // one backfill page without an after cursor drains the history
    let page = Listing {
        children: vec![loaded("i3"), loaded("i2")],
        before: None,
        after: None,
    };
    let out1 = stream.backfill_page(page);
    // the page arrived newest first; the stream emits oldest first
    assert_eq!(ids(&out1), vec!["i2", "i3"]);
    assert_eq!(stream.plan(), StreamPlan::Newest);
    // the second poll republishes i3: it is emitted exactly once in all
    let out2 = stream.poll_newest(vec![loaded("i4"), loaded("i3")]);
    assert_eq!(ids(&out2), vec!["i4"]);
}

#[test]
fn stream_dedups_within_one_page() {
    let app = App::new("testapp", "0.1", "tester").unwrap();
    let mut stream = app.get_comments("all");
    let out = stream.poll_newest(vec![loaded("i1"), loaded("i1"), loaded("i2")]);
    assert_eq!(ids(&out), vec!["i2", "i1"]);
}

#[test]
fn stream_passes_stubs_over() {
    let app = App::new("testapp", "0.1", "tester").unwrap();
    let mut stream = app.get_comments("all");
    let out = stream.poll_newest(vec![
        Comment::NotLoaded { parent_id: "t1_p".to_string(), child_ids: vec![] },
        loaded("i1"),
    ]);
    assert_eq!(ids(&out), vec!["i1"]);
}

#[test]
fn stream_keeps_backfilling_while_pages_remain() {
    let app = App::new("testapp", "0.1", "tester").unwrap();
    let mut stream = app.get_comments("rust");
    let page = Listing {
        children: vec![loaded("i9")],
        before: None,
        after: Some("c1".to_string()),
    };
    let out = stream.backfill_page(page);
    assert_eq!(ids(&out), vec!["i9"]);
    assert_eq!(stream.plan(), StreamPlan::Backfill(FetchPlan::After("c1".to_string())));
}

#[test]
fn sort_query_parameters() {
    assert_eq!(Sort::Hot.params(), vec![("sort", "hot")]);
    assert_eq!(Sort::New.params(), vec![("sort", "new")]);
    assert_eq!(Sort::Rising.params(), vec![("sort", "rising")]);
    assert_eq!(
        Sort::Top(SortTime::Week).params(),
        vec![("sort", "top"), ("t", "week")],
    );
    assert_eq!(
        Sort::Controversial(SortTime::AllTime).params(),
        vec![("sort", "controversial"), ("t", "all")],
    );
}
