//! Envelope for a collection of resources: the page of payload values, the
//! relation map, frozen pagination metadata, and the link-relation assembly
//! algorithm that derives the navigation links from the pagination state.

use vstd::prelude::*;

use crate::link::{Link, LinkSpec, Links};
use crate::pagination::{page_url, PaginationParams};

verus! {

/// The four scalar pagination fields, copied out of the pagination state at
/// construction time so the envelope carries frozen values.
#[derive(Debug, Clone, Copy, PartialEq, Eq, Structural)]
pub struct CollectionMeta {
    /// Total item count across all pages.
    pub total: u64,
    /// Current page number, 1-based.
    pub page: u32,
    /// Page size.
    pub limit: u32,
    /// Number of pages the result set spans.
    pub total_pages: u32,
}

impl CollectionMeta {
    /// The metadata frozen from a pagination state.
    pub open spec fn of(p: PaginationParams) -> CollectionMeta {
        CollectionMeta { total: p.total, page: p.page, limit: p.limit, total_pages: p.total_pages }
    }
}

/// Wraps one page of payload values together with hypermedia links and the
/// pagination metadata describing where the page sits in the result set.
pub struct CollectionResponse<T> {
    pub data: Vec<T>,
    pub links: Links,
    pub meta: CollectionMeta,
}

/// The relation map after the navigation links are assembled over `links`:
/// `self` and `first` always, `prev`, `next` and `last` exactly when the
/// corresponding flag of `p` is set, each pointing at its page URL.
pub open spec fn assembled_links(
    links: Map<Seq<char>, LinkSpec>,
    base: Seq<char>,
    p: PaginationParams,
) -> Map<Seq<char>, LinkSpec> {
    let with_self = links.insert(
        "self"@,
        LinkSpec::plain(page_url(base, p.page as nat, p.limit as nat)),
    );
    let with_first = with_self.insert(
        "first"@,
        LinkSpec::plain(page_url(base, 1, p.limit as nat)),
    );
    let with_prev = if p.has_prev {
        with_first.insert(
            "prev"@,
            LinkSpec::plain(page_url(base, (p.page - 1) as nat, p.limit as nat)),
        )
    } else {
        with_first
    };
    let with_next = if p.has_next {
        with_prev.insert(
            "next"@,
            LinkSpec::plain(page_url(base, (p.page + 1) as nat, p.limit as nat)),
        )
    } else {
        with_prev
    };
    if p.has_last {
        with_next.insert(
            "last"@,
            LinkSpec::plain(page_url(base, p.total_pages as nat, p.limit as nat)),
        )
    } else {
        with_next
    }
}

impl<T> CollectionResponse<T> {
    /// Wraps `data` as supplied — no reordering, no slicing — with an empty
    /// relation map and the metadata frozen from `pagination`.
    pub fn new(data: Vec<T>, pagination: &PaginationParams) -> (r: Self)
        ensures
            r.data == data,
            r.links@ == Map::<Seq<char>, LinkSpec>::empty(),
            r.meta == CollectionMeta::of(*pagination),
    {
        CollectionResponse {
            data,
            links: Links::new(),
            meta: CollectionMeta {
                total: pagination.total,
                page: pagination.page,
                limit: pagination.limit,
                total_pages: pagination.total_pages,
            },
        }
    }

    /// Inserts `rel -> link`, replacing any link already held under `rel`.
    pub fn add_link(self, rel: &str, link: Link) -> (r: Self)
        ensures
            r.data == self.data,
            r.meta == self.meta,
            r.links@ == self.links@.insert(rel@, link@),
    {
        let CollectionResponse { data, links, meta } = self;
        CollectionResponse { data, links: links.insert(rel, link), meta }
    }

    /// Assembles the navigation links over the envelope's relation map:
    /// `self` and `first` unconditionally, `prev`, `next` and `last` exactly
    /// when the corresponding flag of `pagination` is set. Absence of a
    /// relation is the signal that the page boundary has been reached.
    pub fn with_pagination_links(self, base_url: &str, pagination: &PaginationParams) -> (r: Self)
        requires
            pagination.has_prev ==> pagination.page > 1,
            pagination.has_next ==> pagination.page < pagination.total_pages,
        ensures
            r.data == self.data,
            r.meta == self.meta,
            r.links@ == assembled_links(self.links@, base_url@, *pagination),
    {
        let CollectionResponse { data, links, meta } = self;
        let mut links = links;
        links = links.insert("self", Link::new(pagination.current_page_url(base_url).as_str()));
        links = links.insert("first", Link::new(pagination.first_page_url(base_url).as_str()));
        if pagination.has_prev {
            links = links.insert("prev", Link::new(pagination.prev_page_url(base_url).as_str()));
        }
        if pagination.has_next {
            links = links.insert("next", Link::new(pagination.next_page_url(base_url).as_str()));
        }
        if pagination.has_last {
            links = links.insert("last", Link::new(pagination.last_page_url(base_url).as_str()));
        }
        CollectionResponse { data, links, meta }
    }
}

proof fn lemma_nav_rels_distinct()
    ensures
        "self"@ != "first"@,
        "self"@ != "prev"@,
        "self"@ != "next"@,
        "self"@ != "last"@,
        "first"@ != "prev"@,
        "first"@ != "next"@,
        "first"@ != "last"@,
        "prev"@ != "next"@,
        "prev"@ != "last"@,
        "next"@ != "last"@,
{
    reveal_strlit("self");
    reveal_strlit("first");
    reveal_strlit("prev");
    reveal_strlit("next");
    reveal_strlit("last");
    assert("self"@[0] == 's' && "prev"@[0] == 'p' && "next"@[0] == 'n' && "last"@[0] == 'l');
}

/// On a single-page result set the assembled relation set is exactly
/// `self` and `first`: no `prev`, `next` or `last`.
pub proof fn lemma_links_single_page(base: Seq<char>, p: PaginationParams)
    requires
        p.well_formed(),
        p.total_pages == 1,
    ensures
        assembled_links(Map::empty(), base, p).dom() == set!["self"@, "first"@],
{
    lemma_nav_rels_distinct();
    assert(assembled_links(Map::empty(), base, p).dom() =~= set!["self"@, "first"@]);
}

/// On the first of several pages the assembled relation set is exactly
/// `self`, `first`, `next` and `last`: no `prev`.
pub proof fn lemma_links_first_page(base: Seq<char>, p: PaginationParams)
    requires
        p.well_formed(),
        p.page == 1,
        p.total_pages > 1,
    ensures
        assembled_links(Map::empty(), base, p).dom() == set!["self"@, "first"@, "next"@, "last"@],
{
    lemma_nav_rels_distinct();
    assert(assembled_links(Map::empty(), base, p).dom() =~= set![
        "self"@,
        "first"@,
        "next"@,
        "last"@,
    ]);
}

/// On the last of several pages the assembled relation set is exactly
/// `self`, `first` and `prev`: no `next` and no `last`.
pub proof fn lemma_links_last_page(base: Seq<char>, p: PaginationParams)
    requires
        p.well_formed(),
        p.page == p.total_pages,
        p.total_pages > 1,
    ensures
        assembled_links(Map::empty(), base, p).dom() == set!["self"@, "first"@, "prev"@],
{
    lemma_nav_rels_distinct();
    assert(assembled_links(Map::empty(), base, p).dom() =~= set!["self"@, "first"@, "prev"@]);
}

/// On an intermediate page all five navigation relations are assembled.
pub proof fn lemma_links_intermediate_page(base: Seq<char>, p: PaginationParams)
    requires
        p.well_formed(),
        1 < p.page < p.total_pages,
    ensures
        assembled_links(Map::empty(), base, p).dom() == set![
            "self"@,
            "first"@,
            "prev"@,
            "next"@,
            "last"@,
        ],
{
    lemma_nav_rels_distinct();
    assert(assembled_links(Map::empty(), base, p).dom() =~= set![
        "self"@,
        "first"@,
        "prev"@,
        "next"@,
        "last"@,
    ]);
}

/// Assembling the navigation links twice with the same arguments yields the
/// same relation map as assembling them once: insertion replaces, it never
/// duplicates.
pub proof fn lemma_assembly_idempotent(
    links: Map<Seq<char>, LinkSpec>,
    base: Seq<char>,
    p: PaginationParams,
)
    ensures
        assembled_links(assembled_links(links, base, p), base, p) == assembled_links(
            links,
            base,
            p,
        ),
{
    assert(assembled_links(assembled_links(links, base, p), base, p) =~= assembled_links(
        links,
        base,
        p,
    ));
}

} // verus!
