//! Pagination state consumed by the collection envelope: the four scalar
//! metadata fields, the three boundary flags, and the page-URL derivations.

use vstd::prelude::*;

verus! {

/// `d` as a decimal digit character; meaningful for `d < 10`.
pub open spec fn digit_char(d: nat) -> char {
    if d == 0 {
        '0'
    } else if d == 1 {
        '1'
    } else if d == 2 {
        '2'
    } else if d == 3 {
        '3'
    } else if d == 4 {
        '4'
    } else if d == 5 {
        '5'
    } else if d == 6 {
        '6'
    } else if d == 7 {
        '7'
    } else if d == 8 {
        '8'
    } else {
        '9'
    }
}

/// The decimal representation of `n`, most significant digit first,
/// without leading zeroes (a single `'0'` for zero).
pub open spec fn dec_digits(n: nat) -> Seq<char>
    decreases n,
{
    if n < 10 {
        seq![digit_char(n)]
    } else {
        dec_digits(n / 10).push(digit_char(n % 10))
    }
}

/// A fully qualified page URL: the base, then a `page` and a `limit`
/// query parameter, both in decimal.
pub open spec fn page_url(base: Seq<char>, page: nat, limit: nat) -> Seq<char> {
    base + "?page="@ + dec_digits(page) + "&limit="@ + dec_digits(limit)
}

fn digit_str(d: u32) -> (r: &'static str)
    requires
        d < 10,
    ensures
        r@ == seq![digit_char(d as nat)],
{
    proof {
        reveal_strlit("0");
        reveal_strlit("1");
        reveal_strlit("2");
        reveal_strlit("3");
        reveal_strlit("4");
        reveal_strlit("5");
        reveal_strlit("6");
        reveal_strlit("7");
        reveal_strlit("8");
        reveal_strlit("9");
    }
    let r = match d {
        0 => "0",
        1 => "1",
        2 => "2",
        3 => "3",
        4 => "4",
        5 => "5",
        6 => "6",
        7 => "7",
        8 => "8",
        _ => "9",
    };
    proof {
        assert(r@ =~= seq![digit_char(d as nat)]);
    }
    r
}

fn u32_dec(n: u32) -> (r: String)
    ensures
        r@ == dec_digits(n as nat),
    decreases n,
{
    if n < 10 {
        String::from_str(digit_str(n))
    } else {
        let prefix = u32_dec(n / 10);
        let r = prefix.concat(digit_str(n % 10));
        proof {
            assert(r@ =~= dec_digits(n as nat));
        }
        r
    }
}

fn make_page_url(base_url: &str, page: u32, limit: u32) -> (r: String)
    ensures
        r@ == page_url(base_url@, page as nat, limit as nat),
{
    let p = u32_dec(page);
    let l = u32_dec(limit);
    String::from_str(base_url).concat("?page=").concat(p.as_str()).concat("&limit=").concat(
        l.as_str(),
    )
}

/// The state of one page within a larger result set. The scalar fields and
/// flags are computed by the caller's pagination step; this layer only reads
/// them and derives page URLs from them.
#[derive(Debug, Clone, Copy, PartialEq, Eq, Structural)]
pub struct PaginationParams {
    /// Total item count across all pages.
    pub total: u64,
    /// Current page number, 1-based.
    pub page: u32,
    /// Page size.
    pub limit: u32,
    /// Number of pages the result set spans.
    pub total_pages: u32,
    /// There is a page before the current one.
    pub has_prev: bool,
    /// There is a page after the current one.
    pub has_next: bool,
    /// A distinct last page lies ahead of the current one.
    pub has_last: bool,
}

impl PaginationParams {
    /// What a correctly computed pagination state satisfies: the current page
    /// lies within the result set and each boundary flag holds precisely when
    /// the page it points at exists.
    pub open spec fn well_formed(self) -> bool {
        &&& 1 <= self.page <= self.total_pages
        &&& self.has_prev == (self.page > 1)
        &&& self.has_next == (self.page < self.total_pages)
        &&& self.has_last == (self.total_pages > 1 && self.page < self.total_pages)
    }

    /// URL of the current page.
    pub fn current_page_url(&self, base_url: &str) -> (r: String)
        ensures
            r@ == page_url(base_url@, self.page as nat, self.limit as nat),
    {
        make_page_url(base_url, self.page, self.limit)
    }

    /// URL of the first page.
    pub fn first_page_url(&self, base_url: &str) -> (r: String)
        ensures
            r@ == page_url(base_url@, 1, self.limit as nat),
    {
        make_page_url(base_url, 1, self.limit)
    }

    /// URL of the page before the current one; meaningful only past page 1.
    pub fn prev_page_url(&self, base_url: &str) -> (r: String)
        requires
            self.page > 1,
        ensures
            r@ == page_url(base_url@, (self.page - 1) as nat, self.limit as nat),
    {
        make_page_url(base_url, self.page - 1, self.limit)
    }

    /// URL of the page after the current one.
    pub fn next_page_url(&self, base_url: &str) -> (r: String)
        requires
            self.page < u32::MAX,
        ensures
            r@ == page_url(base_url@, (self.page + 1) as nat, self.limit as nat),
    {
        make_page_url(base_url, self.page + 1, self.limit)
    }

    /// URL of the last page.
    pub fn last_page_url(&self, base_url: &str) -> (r: String)
        ensures
            r@ == page_url(base_url@, self.total_pages as nat, self.limit as nat),
    {
        make_page_url(base_url, self.total_pages, self.limit)
    }
}

} // verus!
