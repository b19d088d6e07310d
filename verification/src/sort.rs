use vstd::prelude::*;

verus! {

/// The time window a windowed sort ranges over.
#[derive(Clone, Copy, Debug, PartialEq, Eq, Structural)]
pub enum SortTime {
    Hour,
    Day,
    Week,
    Month,
    Year,
    AllTime,
}

impl SortTime {
    /// The query value this window is sent as.
    pub open spec fn spec_param(self) -> Seq<char> {
        match self {
            SortTime::Hour => "hour"@,
            SortTime::Day => "day"@,
            SortTime::Week => "week"@,
            SortTime::Month => "month"@,
            SortTime::Year => "year"@,
            SortTime::AllTime => "all"@,
        }
    }

    /// The query value this window is sent as.
    pub fn param(&self) -> (r: &'static str)
        ensures
            r@ == self.spec_param(),
    {
        match self {
            SortTime::Hour => "hour",
            SortTime::Day => "day",
            SortTime::Week => "week",
            SortTime::Month => "month",
            SortTime::Year => "year",
            SortTime::AllTime => "all",
        }
    }
}

/// How a listing query orders its items; a pure value object whose only
/// behavior is producing the query parameters it is sent as.
#[derive(Clone, Copy, Debug, PartialEq, Eq, Structural)]
pub enum Sort {
    Hot,
    New,
    Rising,
    Top(SortTime),
    Controversial(SortTime),
}

impl Sort {
    /// The name this sort is sent under.
    pub open spec fn spec_name(self) -> Seq<char> {
        match self {
            Sort::Hot => "hot"@,
            Sort::New => "new"@,
            Sort::Rising => "rising"@,
            Sort::Top(t) => "top"@,
            Sort::Controversial(t) => "controversial"@,
        }
    }

    /// The query parameters this sort is sent as: the sort name, and the
    /// time window where the sort ranges over one.
    pub fn params(&self) -> (r: Vec<(&'static str, &'static str)>)
        ensures
            r@.len() == (match *self {
                Sort::Top(_) => 2int,
                Sort::Controversial(_) => 2int,
                _ => 1int,
            }),
            r@[0].0@ == "sort"@,
            r@[0].1@ == self.spec_name(),
            match *self {
                Sort::Top(t) => r@[1].0@ == "t"@ && r@[1].1@ == t.spec_param(),
                Sort::Controversial(t) => r@[1].0@ == "t"@ && r@[1].1@ == t.spec_param(),
                _ => true,
            },
    {
        let mut out: Vec<(&'static str, &'static str)> = Vec::new();
        match self {
            Sort::Hot => out.push(("sort", "hot")),
            Sort::New => out.push(("sort", "new")),
            Sort::Rising => out.push(("sort", "rising")),
            Sort::Top(t) => {
                out.push(("sort", "top"));
                out.push(("t", t.param()));
            },
            Sort::Controversial(t) => {
                out.push(("sort", "controversial"));
                out.push(("t", t.param()));
            },
        }
        out
    }
}

} // verus!
