use vstd::prelude::*;
use crate::json::{
    JsonValue, lookup, str_field, int_field, str_is, get_field, get_str_field, get_int_field,
    lemma_obj_field_smaller, lemma_arr_elems_smaller,
};
use crate::listing::Listing;

verus! {

/// The mathematical shape of a materialized comment: either a fully loaded
/// node with its nested replies, or a stub standing for children that were
/// not fetched yet.
#[verifier::ext_equal]
pub enum CommentModel {
    Loaded {
        id: Seq<char>,
        author: Seq<char>,
        body: Seq<char>,
        created_at: i64,
        replies: ListingModel,
    },
    NotLoaded { parent_id: Seq<char>, child_ids: Seq<Seq<char>> },
}

/// The mathematical shape of one comment-listing page.
#[verifier::ext_equal]
pub struct ListingModel {
    pub children: Seq<CommentModel>,
    pub before: Option<Seq<char>>,
    pub after: Option<Seq<char>>,
}

/// The view of an optional cursor.
pub open spec fn opt_view(o: Option<String>) -> Option<Seq<char>> {
    match o {
        Some(s) => Some(s@),
        None => None,
    }
}

/// A page with no items and no cursors.
pub open spec fn spec_empty_listing_model() -> ListingModel {
    ListingModel { children: Seq::empty(), before: None, after: None }
}

/// A comment node, as a spec §3 tagged union: consumers must handle the
/// unresolved case explicitly.
#[derive(Debug, PartialEq)]
pub enum Comment {
    /// A comment that arrived in full, with its nested replies.
    Loaded {
        id: String,
        author: String,
        body: String,
        created_at: i64,
        replies: Listing<Comment>,
    },
    /// A "load more" stub: the listed children exist on the server but were
    /// not fetched; the ordered ID list suffices to resolve them later.
    NotLoaded { parent_id: String, child_ids: Vec<String> },
}

/// What a comment node stands for.
pub open spec fn comment_model(c: Comment) -> CommentModel
    decreases c, 3int,
{
    match c {
        Comment::Loaded { id, author, body, created_at, replies } => CommentModel::Loaded {
            id: id@,
            author: author@,
            body: body@,
            created_at,
            replies: listing_model(replies),
        },
        Comment::NotLoaded { parent_id, child_ids } => CommentModel::NotLoaded {
            parent_id: parent_id@,
            child_ids: child_ids@.map_values(|s: String| s@),
        },
    }
}

/// What a comment page stands for.
pub open spec fn listing_model(l: Listing<Comment>) -> ListingModel
    decreases l, 2int,
{
    ListingModel {
        children: comments_model(l.children@, 0),
        before: opt_view(l.before),
        after: opt_view(l.after),
    }
}

/// What the comments of `s` from index `i` on stand for, in order.
pub open spec fn comments_model(s: Seq<Comment>, i: int) -> Seq<CommentModel>
    decreases s, s.len() - i,
{
    if i < 0 || i >= s.len() {
        Seq::empty()
    } else {
        seq![comment_model(s[i])] + comments_model(s, i + 1)
    }
}

/// The model of a comment run has one entry per comment, in order.
pub proof fn lemma_comments_model_index(s: Seq<Comment>, i: int)
    requires
        0 <= i <= s.len(),
    ensures
        comments_model(s, i).len() == s.len() - i,
        forall|j: int|
            0 <= j < s.len() - i ==> comments_model(s, i)[j] == comment_model(s[i + j]),
    decreases s.len() - i,
{
    if i < s.len() {
        lemma_comments_model_index(s, i + 1);
    }
}

/// The loaded node the data fields `d` describe, with `replies` already
/// materialized, where all the required fields are present.
pub open spec fn spec_loaded_from(
    d: Seq<(String, JsonValue)>,
    replies: Option<ListingModel>,
) -> Option<CommentModel> {
    match (
        str_field(d, "id"@),
        str_field(d, "author"@),
        str_field(d, "body"@),
        int_field(d, "created_utc"@),
        replies,
    ) {
        (Some(id), Some(author), Some(body), Some(t), Some(r)) => Some(
            CommentModel::Loaded {
                id: id@,
                author: author@,
                body: body@,
                created_at: t,
                replies: r,
            },
        ),
        _ => None,
    }
}

/// The ordered child IDs of a "more" stub, where every entry is a string.
pub open spec fn spec_parse_ids(elems: Seq<JsonValue>, i: int) -> Option<Seq<Seq<char>>>
    decreases elems.len() - i,
{
    if i < 0 {
        None
    } else if i >= elems.len() {
        Some(Seq::empty())
    } else {
        match elems[i] {
            JsonValue::Str(s) => match spec_parse_ids(elems, i + 1) {
                Some(rest) => Some(seq![s@] + rest),
                None => None,
            },
            _ => None,
        }
    }
}

/// The stub the data fields `d` describe, where parent and child IDs are
/// present.
pub open spec fn spec_more_from(d: Seq<(String, JsonValue)>) -> Option<CommentModel> {
    match (str_field(d, "parent_id"@), lookup(d, "children"@)) {
        (Some(p), Some(JsonValue::Arr(ids))) => match spec_parse_ids(ids@, 0) {
            Some(cids) => Some(CommentModel::NotLoaded { parent_id: p@, child_ids: cids }),
            None => None,
        },
        _ => None,
    }
}

/// The comment a listing entry materializes to: an entry of kind `t1`
/// becomes a loaded node, recursing into its `replies`; one of kind `more`
/// becomes a stub carrying the ordered child IDs; anything else is
/// rejected.
pub open spec fn spec_parse_comment(v: JsonValue) -> Option<CommentModel>
    decreases v, 3int,
    via spec_parse_comment_dec
{
    match v {
        JsonValue::Obj(fields) => match lookup(fields@, "data"@) {
            Some(JsonValue::Obj(d)) => if str_is(str_field(fields@, "kind"@), "t1"@) {
                spec_loaded_from(d@, match lookup(d@, "replies"@) {
                    None => Some(spec_empty_listing_model()),
                    Some(rv) => spec_parse_replies(rv),
                })
            } else if str_is(str_field(fields@, "kind"@), "more"@) {
                spec_more_from(d@)
            } else {
                None
            },
            _ => None,
        },
        _ => None,
    }
}

#[via_fn]
proof fn spec_parse_comment_dec(v: JsonValue) {
    match v {
        JsonValue::Obj(fields) => {
            match lookup(fields@, "data"@) {
                Some(dv) => {
                    lemma_obj_field_smaller(fields, "data"@);
                    match dv {
                        JsonValue::Obj(d) => {
                            match lookup(d@, "replies"@) {
                                Some(rv) => {
                                    lemma_obj_field_smaller(d, "replies"@);
                                },
                                None => {},
                            }
                        },
                        _ => {},
                    }
                },
                None => {},
            }
        },
        _ => {},
    }
}

/// The replies listing under a loaded comment: an absent or null `replies`
/// field, or a bare string (the platform sends an empty one), means no
/// replies; an object is materialized as a listing; anything else is
/// rejected.
pub open spec fn spec_parse_replies(rv: JsonValue) -> Option<ListingModel>
    decreases rv, 2int,
{
    match rv {
        JsonValue::Str(s) => Some(spec_empty_listing_model()),
        JsonValue::Null => Some(spec_empty_listing_model()),
        JsonValue::Obj(fields) => spec_parse_listing(rv),
        _ => None,
    }
}

/// The page a listing envelope materializes to: an object of kind
/// `Listing` whose `data.children` entries all materialize, carrying the
/// page's `before` and `after` cursors where they hold strings.
pub open spec fn spec_parse_listing(v: JsonValue) -> Option<ListingModel>
    decreases v, 1int,
    via spec_parse_listing_dec
{
    match v {
        JsonValue::Obj(fields) => if str_is(str_field(fields@, "kind"@), "Listing"@) {
            match lookup(fields@, "data"@) {
                Some(JsonValue::Obj(d)) => match lookup(d@, "children"@) {
                    Some(JsonValue::Arr(items)) => match spec_parse_comments(items@, 0) {
                        Some(cs) => Some(
                            ListingModel {
                                children: cs,
                                before: opt_view(str_field(d@, "before"@)),
                                after: opt_view(str_field(d@, "after"@)),
                            },
                        ),
                        None => None,
                    },
                    _ => None,
                },
                _ => None,
            }
        } else {
            None
        },
        _ => None,
    }
}

#[via_fn]
proof fn spec_parse_listing_dec(v: JsonValue) {
    match v {
        JsonValue::Obj(fields) => {
            match lookup(fields@, "data"@) {
                Some(dv) => {
                    lemma_obj_field_smaller(fields, "data"@);
                    match dv {
                        JsonValue::Obj(d) => {
                            match lookup(d@, "children"@) {
                                Some(cv) => {
                                    lemma_obj_field_smaller(d, "children"@);
                                    match cv {
                                        JsonValue::Arr(items) => {
                                            lemma_arr_elems_smaller(items);
                                        },
                                        _ => {},
                                    }
                                },
                                None => {},
                            }
                        },
                        _ => {},
                    }
                },
                None => {},
            }
        },
        _ => {},
    }
}

/// The comments that the listing entries from index `i` on materialize to,
/// in order, where every entry materializes.
pub open spec fn spec_parse_comments(elems: Seq<JsonValue>, i: int) -> Option<Seq<CommentModel>>
    decreases elems, elems.len() - i,
{
    if i < 0 {
        None
    } else if i >= elems.len() {
        Some(Seq::empty())
    } else {
        match (spec_parse_comment(elems[i]), spec_parse_comments(elems, i + 1)) {
            (Some(c), Some(rest)) => Some(seq![c] + rest),
            _ => None,
        }
    }
}

/// Materializes one listing entry, or reports that it does not parse.
pub fn parse_comment(v: &JsonValue) -> (r: Option<Comment>)
    ensures
        match r {
            Some(c) => spec_parse_comment(*v) == Some(comment_model(c)),
            None => spec_parse_comment(*v) is None,
        },
    decreases v, 3int,
{
    match v {
        JsonValue::Obj(fields) => {
            match get_field(fields, &"data".to_owned()) {
                Some(dv) => match dv {
                    JsonValue::Obj(d) => {
                        let kind = get_str_field(fields, &"kind".to_owned());
                        let is_t1 = match &kind {
                            Some(k) => *k == "t1".to_owned(),
                            None => false,
                        };
                        let is_more = match &kind {
                            Some(k) => *k == "more".to_owned(),
                            None => false,
                        };
                        if is_t1 {
                            let id = get_str_field(d, &"id".to_owned());
                            let author = get_str_field(d, &"author".to_owned());
                            let body = get_str_field(d, &"body".to_owned());
                            let created = get_int_field(d, &"created_utc".to_owned());
                            let replies: Option<Listing<Comment>> = match get_field(
                                d,
                                &"replies".to_owned(),
                            ) {
                                None => {
                                    let le = Listing::<Comment>::empty();
                                    proof {
                                        assert(listing_model(le) =~= spec_empty_listing_model());
                                    }
                                    Some(le)
                                },
                                Some(rv) => {
                                    proof {
                                        lemma_obj_field_smaller(*fields, "data"@);
                                        lemma_obj_field_smaller(*d, "replies"@);
                                    }
                                    parse_replies(rv)
                                },
                            };
                            match (id, author, body, created, replies) {
                                (Some(idv), Some(av), Some(bv), Some(t), Some(rp)) => Some(
                                    Comment::Loaded {
                                        id: idv,
                                        author: av,
                                        body: bv,
                                        created_at: t,
                                        replies: rp,
                                    },
                                ),
                                _ => None,
                            }
                        } else if is_more {
                            match (
                                get_str_field(d, &"parent_id".to_owned()),
                                get_field(d, &"children".to_owned()),
                            ) {
                                (Some(p), Some(cv)) => match cv {
                                    JsonValue::Arr(ids) => match parse_ids(ids, 0) {
                                        Some(cids) => Some(
                                            Comment::NotLoaded { parent_id: p, child_ids: cids },
                                        ),
                                        None => None,
                                    },
                                    _ => None,
                                },
                                _ => None,
                            }
                        } else {
                            None
                        }
                    },
                    _ => None,
                },
                None => None,
            }
        },
        _ => None,
    }
}

/// Materializes the `replies` field of a loaded comment.
pub fn parse_replies(rv: &JsonValue) -> (r: Option<Listing<Comment>>)
    ensures
        match r {
            Some(l) => spec_parse_replies(*rv) == Some(listing_model(l)),
            None => spec_parse_replies(*rv) is None,
        },
    decreases rv, 2int,
{
    match rv {
        JsonValue::Str(s) => {
            let le = Listing::<Comment>::empty();
            proof {
                assert(listing_model(le) =~= spec_empty_listing_model());
            }
            Some(le)
        },
        JsonValue::Null => {
            let le = Listing::<Comment>::empty();
            proof {
                assert(listing_model(le) =~= spec_empty_listing_model());
            }
            Some(le)
        },
        JsonValue::Obj(fields) => parse_listing(rv),
        _ => None,
    }
}

/// Materializes a comment-listing envelope into one page of the tree.
pub fn parse_listing(v: &JsonValue) -> (r: Option<Listing<Comment>>)
    ensures
        match r {
            Some(l) => spec_parse_listing(*v) == Some(listing_model(l)),
            None => spec_parse_listing(*v) is None,
        },
    decreases v, 1int,
{
    match v {
        JsonValue::Obj(fields) => {
            let kind = get_str_field(fields, &"kind".to_owned());
            let is_listing = match &kind {
                Some(k) => *k == "Listing".to_owned(),
                None => false,
            };
            if is_listing {
                match get_field(fields, &"data".to_owned()) {
                    Some(dv) => match dv {
                        JsonValue::Obj(d) => match get_field(d, &"children".to_owned()) {
                            Some(cv) => match cv {
                                JsonValue::Arr(items) => {
                                    proof {
                                        lemma_obj_field_smaller(*fields, "data"@);
                                        lemma_obj_field_smaller(*d, "children"@);
                                        lemma_arr_elems_smaller(*items);
                                    }
                                    match parse_comments(items, 0) {
                                        Some(cs) => {
                                            let before = get_str_field(d, &"before".to_owned());
                                            let after = get_str_field(d, &"after".to_owned());
                                            Some(Listing { children: cs, before, after })
                                        },
                                        None => None,
                                    }
                                },
                                _ => None,
                            },
                            None => None,
                        },
                        _ => None,
                    },
                    None => None,
                }
            } else {
                None
            }
        },
        _ => None,
    }
}

/// Materializes the listing entries from index `i` on, in order.
pub fn parse_comments(items: &Vec<JsonValue>, i: usize) -> (r: Option<Vec<Comment>>)
    ensures
        match r {
            Some(cs) => spec_parse_comments(items@, i as int) == Some(comments_model(cs@, 0)),
            None => spec_parse_comments(items@, i as int) is None,
        },
    decreases items@, items@.len() - i as int,
{
    if i >= items.len() {
        let out: Vec<Comment> = Vec::new();
        proof {
            assert(comments_model(out@, 0) =~= Seq::<CommentModel>::empty());
        }
        Some(out)
    } else {
        proof {
            assert(decreases_to!(items@ => items@[i as int]));
        }
        match parse_comment(&items[i]) {
            Some(c) => match parse_comments(items, i + 1) {
                Some(rest) => {
                    let ghost rest0 = rest@;
                    let ghost cm0 = comment_model(c);
                    let mut rest = rest;
                    rest.insert(0, c);
                    proof {
                        lemma_comments_model_index(rest@, 0);
                        lemma_comments_model_index(rest0, 0);
                        assert(comments_model(rest@, 0) =~= seq![cm0] + comments_model(rest0, 0));
                    }
                    Some(rest)
                },
                None => None,
            },
            None => None,
        }
    }
}

/// Reads the ordered child-ID strings from index `i` on.
pub fn parse_ids(items: &Vec<JsonValue>, i: usize) -> (r: Option<Vec<String>>)
    ensures
        match r {
            Some(ids) => spec_parse_ids(items@, i as int) == Some(
                ids@.map_values(|s: String| s@),
            ),
            None => spec_parse_ids(items@, i as int) is None,
        },
    decreases items@.len() - i as int,
{
    if i >= items.len() {
        let out: Vec<String> = Vec::new();
        proof {
            assert(out@.map_values(|s: String| s@) =~= Seq::<Seq<char>>::empty());
        }
        Some(out)
    } else {
        match &items[i] {
            JsonValue::Str(s) => match parse_ids(items, i + 1) {
                Some(rest) => {
                    let ghost rest0 = rest@;
                    let mut rest = rest;
                    rest.insert(0, s.clone());
                    proof {
                        assert(rest@.map_values(|t: String| t@) =~= seq![s@] + rest0.map_values(
                            |t: String| t@,
                        ));
                    }
                    Some(rest)
                },
                None => None,
            },
            _ => None,
        }
    }
}

/// The sibling run with the stub at `i` replaced, in place, by `repl`.
pub open spec fn spec_splice(items: Seq<Comment>, i: int, repl: Seq<Comment>) -> Seq<Comment> {
    items.subrange(0, i) + repl + items.subrange(i + 1, items.len() as int)
}

/// Replaces the entry at `index` by the run `resolved`, keeping every other
/// sibling in place and in order.
pub fn splice_children(children: &mut Vec<Comment>, index: usize, resolved: Vec<Comment>)
    requires
        index < old(children)@.len(),
    ensures
        final(children)@ == spec_splice(old(children)@, index as int, resolved@),
{
    let ghost orig = children@;
    let ghost r_all = resolved@;
    children.remove(index);
    proof {
        assert(children@ =~= orig.subrange(0, index as int) + r_all.subrange(
            r_all.len() as int,
            r_all.len() as int,
        ) + orig.subrange(index as int + 1, orig.len() as int));
    }
    let mut rest = resolved;
    while rest.len() > 0
        invariant
            index < orig.len(),
            index <= children@.len(),
            rest@.len() <= r_all.len(),
            rest@ == r_all.subrange(0, rest@.len() as int),
            children@ == orig.subrange(0, index as int) + r_all.subrange(
                rest@.len() as int,
                r_all.len() as int,
            ) + orig.subrange(index as int + 1, orig.len() as int),
        decreases rest@.len(),
    {
        let ghost pre = children@;
        let x = rest.pop().unwrap();
        proof {
            assert(rest@ =~= r_all.subrange(0, rest@.len() as int));
            assert(x == r_all[rest@.len() as int]);
        }
        children.insert(index, x);
        proof {
            pre.insert_ensures(index as int, x);
            assert(children@ =~= orig.subrange(0, index as int) + r_all.subrange(
                rest@.len() as int,
                r_all.len() as int,
            ) + orig.subrange(index as int + 1, orig.len() as int));
        }
    }
    proof {
        assert(r_all.subrange(0, r_all.len() as int) =~= r_all);
        assert(children@ =~= spec_splice(orig, index as int, r_all));
    }
}

/// Resolving the same stub with the same fetched run twice yields equal
/// trees, and never reorders or duplicates a sibling: the run stands
/// exactly where the stub stood, between the untouched siblings.
pub proof fn lemma_resolve_idempotent(
    items: Seq<Comment>,
    i: int,
    repl: Seq<Comment>,
    first: Seq<Comment>,
    second: Seq<Comment>,
)
    requires
        0 <= i < items.len(),
        first == spec_splice(items, i, repl),
        second == spec_splice(items, i, repl),
    ensures
        first == second,
        first.len() == items.len() - 1 + repl.len(),
        forall|j: int| 0 <= j < i ==> first[j] == items[j],
        forall|j: int| 0 <= j < repl.len() ==> first[i + j] == repl[j],
        forall|j: int|
            i + repl.len() <= j < first.len() ==> first[j] == items[j + 1 - repl.len()],
{
}

} // verus!
