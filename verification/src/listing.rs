use vstd::prelude::*;

verus! {

/// One page of an ordered, cursor-paginated result set: the items in the
/// server's order, and the opaque `before` / `after` cursors, where present.
#[derive(Debug, PartialEq)]
pub struct Listing<T> {
    pub children: Vec<T>,
    pub before: Option<String>,
    pub after: Option<String>,
}

impl<T> Listing<T> {
    /// A page with no items and no cursors.
    pub fn empty() -> (l: Listing<T>)
        ensures
            l.children@ == Seq::<T>::empty(),
            l.before is None,
            l.after is None,
    {
        Listing { children: Vec::new(), before: None, after: None }
    }
}

/// The items of a run of pages, in the order the consumer sees them.
pub open spec fn pages_items<T>(pages: Seq<Listing<T>>) -> Seq<T>
    decreases pages.len(),
{
    if pages.len() == 0 {
        Seq::empty()
    } else {
        pages[0].children@ + pages_items(pages.drop_first())
    }
}

/// What a paginator would fetch next.
#[derive(Debug, Clone, PartialEq)]
pub enum FetchPlan {
    /// The first page, with no cursor.
    Start,
    /// The page after the given cursor.
    After(String),
    /// Nothing: the sequence is exhausted.
    Finished,
}

/// Drives a cursor across the pages of one listing query. A fresh paginator
/// fetches with no cursor; each fetched page supplies the cursor for the
/// next fetch; a page without an `after` cursor, or without items, exhausts
/// the sequence. An exhausted paginator cannot be restarted: a new query
/// takes a new paginator.
#[derive(Debug, Clone, PartialEq)]
pub struct Paginator {
    pub cursor: Option<String>,
    pub exhausted: bool,
}

impl Paginator {
    /// A paginator before its first fetch.
    pub open spec fn spec_new() -> Paginator {
        Paginator { cursor: None, exhausted: false }
    }

    /// What this paginator would fetch next.
    pub open spec fn spec_plan(self) -> FetchPlan {
        if self.exhausted {
            FetchPlan::Finished
        } else {
            match self.cursor {
                None => FetchPlan::Start,
                Some(c) => FetchPlan::After(c),
            }
        }
    }

    /// The paginator after taking one fetched page in.
    pub open spec fn spec_advance<T>(self, page: Listing<T>) -> Paginator {
        Paginator {
            cursor: page.after,
            exhausted: page.after is None || page.children@.len() == 0,
        }
    }

    /// A paginator before its first fetch.
    pub fn new() -> (p: Paginator)
        ensures
            p == Paginator::spec_new(),
    {
        Paginator { cursor: None, exhausted: false }
    }

    /// What to fetch next: the start of the query, the page after the held
    /// cursor, or nothing once exhausted.
    pub fn plan(&self) -> (f: FetchPlan)
        ensures
            f == self.spec_plan(),
    {
        if self.exhausted {
            FetchPlan::Finished
        } else {
            match &self.cursor {
                None => FetchPlan::Start,
                Some(c) => FetchPlan::After(c.clone()),
            }
        }
    }

    /// Takes one fetched page in: the page's `after` cursor becomes the next
    /// cursor, and a page with no cursor or no items exhausts the sequence.
    pub fn advance<T>(&mut self, page: &Listing<T>)
        ensures
            *final(self) == old(self).spec_advance(*page),
    {
        self.cursor = match &page.after {
            Some(c) => Some(c.clone()),
            None => None,
        };
        self.exhausted = self.cursor.is_none() || page.children.len() == 0;
    }
}

/// Driving a paginator over a run of three pages, of which the first two
/// carry an `after` cursor and items and the last carries none, fetches the
/// start, then each cursor in turn, hands the consumer exactly the items of
/// the three pages in order, and then terminates.
pub proof fn lemma_paginate_three_pages<T>(p0: Listing<T>, p1: Listing<T>, p2: Listing<T>)
    requires
        p0.after is Some,
        p0.children@.len() > 0,
        p1.after is Some,
        p1.children@.len() > 0,
        p2.after is None,
    ensures
        ({
            let s0 = Paginator::spec_new();
            let s1 = s0.spec_advance(p0);
            let s2 = s1.spec_advance(p1);
            let s3 = s2.spec_advance(p2);
            &&& s0.spec_plan() == FetchPlan::Start
            &&& s1.spec_plan() == FetchPlan::After(p0.after->0)
            &&& s2.spec_plan() == FetchPlan::After(p1.after->0)
            &&& s3.spec_plan() == FetchPlan::Finished
            &&& pages_items(seq![p0, p1, p2]) == p0.children@ + p1.children@ + p2.children@
        }),
{
    let pages = seq![p0, p1, p2];
    let t1 = pages.drop_first();
    let t2 = t1.drop_first();
    let t3 = t2.drop_first();
    assert(t1 =~= seq![p1, p2]);
    assert(t2 =~= seq![p2]);
    assert(t3 =~= Seq::<Listing<T>>::empty());
    assert(pages_items(t3) == Seq::<T>::empty());
    assert(pages_items(t2) == p2.children@ + pages_items(t3));
    assert(pages_items(t1) == p1.children@ + pages_items(t2));
    assert(pages_items(pages) == p0.children@ + pages_items(t1));
    assert(pages_items(pages) =~= p0.children@ + p1.children@ + p2.children@);
}

} // verus!
