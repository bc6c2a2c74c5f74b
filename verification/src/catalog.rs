//! The public product catalog's query: paging limits and the search pattern.

use vstd::prelude::*;
use vstd::string::*;

verus! {

/// A catalog query as it arrives in the URL.
#[derive(Debug, Clone, Default)]
pub struct ProductQuery {
    pub category: Option<String>,
    pub search: Option<String>,
    pub page: Option<i32>,
    pub limit: Option<i32>,
}

/// `v` brought into `[lo, hi]`.
pub open spec fn clamp(v: int, lo: int, hi: int) -> int {
    if v < lo {
        lo
    } else if v > hi {
        hi
    } else {
        v
    }
}

fn clamp_i32(v: i32, lo: i32, hi: i32) -> (r: i32)
    requires
        lo <= hi,
    ensures
        r == clamp(v as int, lo as int, hi as int),
{
    if v < lo {
        lo
    } else if v > hi {
        hi
    } else {
        v
    }
}

/// The page asked for (1 when absent), kept within 1 to 1 000 000.
pub open spec fn page_of(q: Option<i32>) -> int {
    clamp(
        match q {
            Some(p) => p as int,
            None => 1,
        },
        1,
        1_000_000,
    )
}

/// The page size asked for (20 when absent), kept within 1 to 100.
pub open spec fn limit_of(q: Option<i32>) -> int {
    clamp(
        match q {
            Some(l) => l as int,
            None => 20,
        },
        1,
        100,
    )
}

/// The text the search is matched against: the search words between `%`
/// wildcards.
pub open spec fn pattern_of(s: Seq<char>) -> Seq<char> {
    "%"@ + s + "%"@
}

impl ProductQuery {
    /// The page, the page size and the number of products skipped before the page.
    pub fn page_window(&self) -> (r: (i32, i32, i32))
        ensures
            r.0 == page_of(self.page),
            r.1 == limit_of(self.limit),
            r.2 == (r.0 - 1) * r.1,
            0 <= r.2 <= 99_999_900,
    {
        let page = clamp_i32(
            match self.page {
                Some(p) => p,
                None => 1,
            },
            1,
            1_000_000,
        );
        let limit = clamp_i32(
            match self.limit {
                Some(l) => l,
                None => 20,
            },
            1,
            100,
        );
        assert(0 <= (page - 1) * limit <= 99_999_900) by (nonlinear_arith)
            requires
                1 <= page <= 1_000_000,
                1 <= limit <= 100,
        ;
        (page, limit, (page - 1) * limit)
    }

    /// The search pattern, when a search was asked for.
    pub fn search_pattern(&self) -> (r: Option<String>)
        ensures
            r is Some <==> self.search is Some,
            r matches Some(p) ==> p@ == pattern_of(self.search->0@),
    {
        match &self.search {
            Some(s) => {
                let mut p = "%".to_owned();
                p.append(s.as_str());
                p.append("%");
                Some(p)
            },
            None => None,
        }
    }
}

/// Paging keeps what was asked for when it is in range, uses page 1 and 20
/// products when nothing was asked, and otherwise takes the nearest limit;
/// the search pattern is the search words between two `%`.
pub proof fn lemma_paging(page: Option<i32>, limit: Option<i32>, words: Seq<char>)
    ensures
        page is None ==> page_of(page) == 1,
        limit is None ==> limit_of(limit) == 20,
        page matches Some(p) && 1 <= p <= 1_000_000 ==> page_of(page) == page->0,
        page matches Some(p) && p < 1 ==> page_of(page) == 1,
        page matches Some(p) && p > 1_000_000 ==> page_of(page) == 1_000_000,
        limit matches Some(l) && 1 <= l <= 100 ==> limit_of(limit) == limit->0,
        limit matches Some(l) && l < 1 ==> limit_of(limit) == 1,
        limit matches Some(l) && l > 100 ==> limit_of(limit) == 100,
        pattern_of(words).len() == words.len() + 2,
        pattern_of(words)[0] == '%',
        pattern_of(words).last() == '%',
        pattern_of(words).subrange(1, words.len() as int + 1) == words,
{
    reveal_strlit("%");
    assert(pattern_of(words).subrange(1, words.len() as int + 1) =~= words);
}

} // verus!
