use vstd::prelude::*;
use crate::comment::Comment;
use crate::listing::{Listing, Paginator, FetchPlan};

verus! {

/// The views of the IDs in `v`, in order.
pub open spec fn ids_of(v: Seq<String>) -> Seq<Seq<char>> {
    v.map_values(|s: String| s@)
}

/// Whether `c` is a loaded comment carrying the ID `id`.
pub open spec fn is_loaded_with_id(c: Comment, id: Seq<char>) -> bool {
    c matches Comment::Loaded { id: cid, .. } && cid@ == id
}

/// Whether the run `out` holds a loaded comment with ID `id`.
pub open spec fn contains_id(out: Seq<Comment>, id: Seq<char>) -> bool {
    exists|k: int| 0 <= k < out.len() && is_loaded_with_id(#[trigger] out[k], id)
}

/// One step of taking a polled page in: walking the page in order, a loaded
/// comment whose ID was not seen yet is emitted and its ID recorded; an
/// already-seen ID, and every stub, is passed over.
pub open spec fn spec_ingest(seen: Seq<Seq<char>>, page: Seq<Comment>) -> (
    Seq<Seq<char>>,
    Seq<Comment>,
)
    decreases page.len(),
{
    if page.len() == 0 {
        (seen, Seq::empty())
    } else {
        match page[0] {
            Comment::Loaded { id, .. } => if seen.contains(id@) {
                spec_ingest(seen, page.drop_first())
            } else {
                let rec = spec_ingest(seen.push(id@), page.drop_first());
                (rec.0, seq![page[0]] + rec.1)
            },
            Comment::NotLoaded { .. } => spec_ingest(seen, page.drop_first()),
        }
    }
}

/// Every ID recorded before an ingest is still recorded after it.
pub proof fn lemma_ingest_seen_monotone(seen: Seq<Seq<char>>, page: Seq<Comment>, id: Seq<char>)
    requires
        seen.contains(id),
    ensures
        spec_ingest(seen, page).0.contains(id),
    decreases page.len(),
{
    if page.len() > 0 {
        match page[0] {
            Comment::Loaded { id: cid, .. } => {
                if seen.contains(cid@) {
                    lemma_ingest_seen_monotone(seen, page.drop_first(), id);
                } else {
                    assert(seen.push(cid@).contains(id)) by {
                        let k = choose|k: int| 0 <= k < seen.len() && seen[k] == id;
                        assert(seen.push(cid@)[k] == id);
                    }
                    lemma_ingest_seen_monotone(seen.push(cid@), page.drop_first(), id);
                }
            },
            Comment::NotLoaded { .. } => {
                lemma_ingest_seen_monotone(seen, page.drop_first(), id);
            },
        }
    }
}

/// Every ID an ingest emits is recorded in the seen run it leaves behind.
pub proof fn lemma_ingest_emitted_recorded(seen: Seq<Seq<char>>, page: Seq<Comment>, id: Seq<char>)
    requires
        contains_id(spec_ingest(seen, page).1, id),
    ensures
        spec_ingest(seen, page).0.contains(id),
    decreases page.len(),
{
    if page.len() > 0 {
        let rest = page.drop_first();
        match page[0] {
            Comment::Loaded { id: cid, .. } => {
                if seen.contains(cid@) {
                    lemma_ingest_emitted_recorded(seen, rest, id);
                } else {
                    let out = spec_ingest(seen, page).1;
                    let rec = spec_ingest(seen.push(cid@), rest);
                    let k = choose|k: int|
                        0 <= k < out.len() && is_loaded_with_id(#[trigger] out[k], id);
                    if k == 0 {
                        assert(seen.push(cid@).contains(id)) by {
                            assert(seen.push(cid@).last() == cid@);
                        }
                        lemma_ingest_seen_monotone(seen.push(cid@), rest, id);
                    } else {
                        assert(out[k] == rec.1[k - 1]);
                        assert(contains_id(rec.1, id));
                        lemma_ingest_emitted_recorded(seen.push(cid@), rest, id);
                    }
                }
            },
            Comment::NotLoaded { .. } => {
                lemma_ingest_emitted_recorded(seen, rest, id);
            },
        }
    }
}

/// An ID already recorded as seen is never emitted again.
pub proof fn lemma_ingest_no_reemit(seen: Seq<Seq<char>>, page: Seq<Comment>, id: Seq<char>)
    requires
        seen.contains(id),
    ensures
        !contains_id(spec_ingest(seen, page).1, id),
    decreases page.len(),
{
    if page.len() > 0 {
        let rest = page.drop_first();
        match page[0] {
            Comment::Loaded { id: cid, .. } => {
                if seen.contains(cid@) {
                    lemma_ingest_no_reemit(seen, rest, id);
                } else {
                    assert(cid@ != id);
                    assert(seen.push(cid@).contains(id)) by {
                        let k = choose|k: int| 0 <= k < seen.len() && seen[k] == id;
                        assert(seen.push(cid@)[k] == id);
                    }
                    lemma_ingest_no_reemit(seen.push(cid@), rest, id);
                    let out = spec_ingest(seen, page).1;
                    let rec = spec_ingest(seen.push(cid@), rest);
                    if contains_id(out, id) {
                        let k = choose|k: int|
                            0 <= k < out.len() && is_loaded_with_id(#[trigger] out[k], id);
                        if k == 0 {
                            assert(is_loaded_with_id(page[0], id));
                        } else {
                            assert(out[k] == rec.1[k - 1]);
                            assert(contains_id(rec.1, id));
                        }
                        assert(false);
                    }
                }
            },
            Comment::NotLoaded { .. } => {
                lemma_ingest_no_reemit(seen, rest, id);
            },
        }
    }
}

/// Across two successive polls, an ID emitted by the first is not emitted
/// again by the second, even where the second page republishes it.
pub proof fn lemma_stream_dedup(
    seen0: Seq<Seq<char>>,
    p1: Seq<Comment>,
    p2: Seq<Comment>,
    id: Seq<char>,
)
    ensures
        ({
            let (seen1, out1) = spec_ingest(seen0, p1);
            let (seen2, out2) = spec_ingest(seen1, p2);
            contains_id(out1, id) ==> !contains_id(out2, id)
        }),
{
    let (seen1, out1) = spec_ingest(seen0, p1);
    if contains_id(out1, id) {
        lemma_ingest_emitted_recorded(seen0, p1, id);
        lemma_ingest_no_reemit(seen1, p2, id);
    }
}

/// Whether one of the recorded IDs reads `id`.
fn seen_contains(seen: &Vec<String>, id: &String) -> (r: bool)
    ensures
        r == ids_of(seen@).contains(id@),
{
    let mut j: usize = 0;
    while j < seen.len()
        invariant
            j <= seen@.len(),
            forall|k: int| 0 <= k < j ==> seen@[k]@ != id@,
        decreases seen@.len() - j,
    {
        if seen[j] == *id {
            proof {
                assert(ids_of(seen@)[j as int] == id@);
            }
            return true;
        }
        j += 1;
    }
    proof {
        if ids_of(seen@).contains(id@) {
            let k = choose|k: int| 0 <= k < ids_of(seen@).len() && ids_of(seen@)[k] == id@;
            assert(seen@[k]@ == id@);
            assert(false);
        }
    }
    false
}

/// The same comments in the opposite order: pages arrive newest first, and
/// the stream emits oldest first.
fn reversed(page: Vec<Comment>) -> (out: Vec<Comment>)
    ensures
        out@ == page@.reverse(),
{
    let ghost orig = page@;
    let mut page = page;
    let mut out: Vec<Comment> = Vec::new();
    while page.len() > 0
        invariant
            page@.len() <= orig.len(),
            page@ == orig.subrange(0, page@.len() as int),
            out@.len() == orig.len() - page@.len(),
            forall|j: int| 0 <= j < out@.len() ==> out@[j] == orig[orig.len() - 1 - j],
        decreases page@.len(),
    {
        let ghost pre = page@;
        let x = page.pop().unwrap();
        proof {
            assert(page@ =~= orig.subrange(0, page@.len() as int));
            assert(x == orig[page@.len() as int]);
        }
        out.push(x);
    }
    proof {
        assert(out@ =~= orig.reverse());
    }
    out
}

/// Walks `page` in order, emitting each loaded comment whose ID is not yet
/// in `seen` and recording its ID; already-seen IDs and stubs are passed
/// over.
pub fn ingest(seen: &mut Vec<String>, page: Vec<Comment>) -> (out: Vec<Comment>)
    ensures
        ids_of(final(seen)@) == spec_ingest(ids_of(old(seen)@), page@).0,
        out@ == spec_ingest(ids_of(old(seen)@), page@).1,
    decreases page@.len(),
{
    let mut page = page;
    if page.len() == 0 {
        Vec::new()
    } else {
        let ghost page0 = page@;
        let c = page.remove(0);
        proof {
            assert(page@ =~= page0.drop_first());
        }
        let emit_id: Option<String> = match &c {
            Comment::Loaded { id, .. } => if seen_contains(seen, id) {
                None
            } else {
                Some(id.clone())
            },
            Comment::NotLoaded { .. } => None,
        };
        match emit_id {
            Some(idc) => {
                let ghost seen_pre = seen@;
                let ghost c0 = c;
                seen.push(idc);
                proof {
                    assert(ids_of(seen@) =~= ids_of(seen_pre).push(c0->Loaded_id@));
                }
                let rest_out = ingest(seen, page);
                let mut out = rest_out;
                let ghost out_pre = out@;
                out.insert(0, c);
                proof {
                    assert(out@ =~= seq![c0] + out_pre);
                }
                out
            },
            None => ingest(seen, page),
        }
    }
}

/// What a comment stream fetches next.
#[derive(Debug, Clone, PartialEq)]
pub enum StreamPlan {
    /// One page of the newest-first history, per the held cursor.
    Backfill(FetchPlan),
    /// The newest page again, after waiting out the poll interval.
    Newest,
}

/// A continuous, deduplicated feed of new comments across one subreddit,
/// or across all of them. The stream first drains the newest-first history
/// page by page, then tails the newest page, never emitting an ID twice.
#[derive(Debug, Clone)]
pub struct CommentStream {
    /// The subreddit polled, or the all-of-the-site feed's name.
    pub subreddit: String,
    /// The IDs already emitted, in emission order.
    pub seen: Vec<String>,
    /// The cursor over the newest-first history while backfilling.
    pub backfill: Paginator,
    /// Whether the history is drained and the stream is live-tailing.
    pub tailing: bool,
}

impl CommentStream {
    /// What this stream would fetch next.
    pub open spec fn spec_plan(self) -> StreamPlan {
        if self.tailing {
            StreamPlan::Newest
        } else {
            StreamPlan::Backfill(self.backfill.spec_plan())
        }
    }

    /// A fresh stream over `subreddit`, with nothing emitted yet.
    pub fn new(subreddit: String) -> (s: CommentStream)
        ensures
            s.subreddit == subreddit,
            s.seen@ == Seq::<String>::empty(),
            s.backfill == Paginator::spec_new(),
            s.tailing == false,
    {
        CommentStream {
            subreddit,
            seen: Vec::new(),
            backfill: Paginator::new(),
            tailing: false,
        }
    }

    /// What to fetch next: a history page while backfilling, else the
    /// newest page again.
    pub fn plan(&self) -> (p: StreamPlan)
        ensures
            p == self.spec_plan(),
    {
        if self.tailing {
            StreamPlan::Newest
        } else {
            StreamPlan::Backfill(self.backfill.plan())
        }
    }

    /// Takes one backfill page in: the cursor advances, the stream switches
    /// to live-tail once the history is drained, and the page's unseen
    /// comments come out oldest first (the page arrives newest first).
    pub fn backfill_page(&mut self, page: Listing<Comment>) -> (out: Vec<Comment>)
        requires
            !old(self).tailing,
        ensures
            final(self).subreddit == old(self).subreddit,
            final(self).backfill == old(self).backfill.spec_advance(page),
            final(self).tailing == old(self).backfill.spec_advance(page).exhausted,
            ids_of(final(self).seen@) == spec_ingest(
                ids_of(old(self).seen@),
                page.children@.reverse(),
            ).0,
            out@ == spec_ingest(ids_of(old(self).seen@), page.children@.reverse()).1,
    {
        self.backfill.advance(&page);
        if self.backfill.exhausted {
            self.tailing = true;
        }
        ingest(&mut self.seen, reversed(page.children))
    }

    /// Takes one newest-page poll in; the page's unseen comments come out
    /// oldest first, and their IDs are recorded so no later poll re-emits
    /// them.
    pub fn poll_newest(&mut self, page: Vec<Comment>) -> (out: Vec<Comment>)
        ensures
            final(self).subreddit == old(self).subreddit,
            final(self).backfill == old(self).backfill,
            final(self).tailing == old(self).tailing,
            ids_of(final(self).seen@) == spec_ingest(ids_of(old(self).seen@), page@.reverse()).0,
            out@ == spec_ingest(ids_of(old(self).seen@), page@.reverse()).1,
    {
        ingest(&mut self.seen, reversed(page))
    }
}

} // verus!
