//! Envelope for a single resource: a payload value plus its relation map.

use vstd::prelude::*;

use crate::link::{Link, LinkSpec, Links};

verus! {

/// Wraps one payload value together with the hypermedia links that describe
/// what a client may do next with it.
pub struct HateoasResponse<T> {
    pub data: T,
    pub links: Links,
}

impl<T> HateoasResponse<T> {
    /// Wraps `data` with an empty relation map.
    pub fn new(data: T) -> (r: Self)
        ensures
            r.data == data,
            r.links@ == Map::<Seq<char>, LinkSpec>::empty(),
    {
        HateoasResponse { data, links: Links::new() }
    }

    /// Inserts `rel -> link`, replacing any link already held under `rel`.
    pub fn add_link(self, rel: &str, link: Link) -> (r: Self)
        ensures
            r.data == self.data,
            r.links@ == self.links@.insert(rel@, link@),
    {
        let HateoasResponse { data, links } = self;
        HateoasResponse { data, links: links.insert(rel, link) }
    }

    /// Inserts a plain link to `href` under the `self` relation.
    pub fn add_self(self, href: &str) -> (r: Self)
        ensures
            r.data == self.data,
            r.links@ == self.links@.insert("self"@, LinkSpec::plain(href@)),
    {
        self.add_link("self", Link::new(href))
    }

    /// Inserts a plain link to `href` under the `collection` relation.
    pub fn add_collection(self, href: &str) -> (r: Self)
        ensures
            r.data == self.data,
            r.links@ == self.links@.insert("collection"@, LinkSpec::plain(href@)),
    {
        self.add_link("collection", Link::new(href))
    }

    /// Inserts a link to `href` under the `create` relation, hinting `POST`.
    pub fn add_create(self, href: &str) -> (r: Self)
        ensures
            r.data == self.data,
            r.links@ == self.links@.insert("create"@, LinkSpec::with_method(href@, "POST"@)),
    {
        self.add_link("create", Link::new(href).method("POST"))
    }

    /// Inserts a link to `href` under the `update` relation, hinting `PATCH`.
    pub fn add_update(self, href: &str) -> (r: Self)
        ensures
            r.data == self.data,
            r.links@ == self.links@.insert("update"@, LinkSpec::with_method(href@, "PATCH"@)),
    {
        self.add_link("update", Link::new(href).method("PATCH"))
    }

    /// Inserts a link to `href` under the `delete` relation, hinting `DELETE`.
    pub fn add_delete(self, href: &str) -> (r: Self)
        ensures
            r.data == self.data,
            r.links@ == self.links@.insert("delete"@, LinkSpec::with_method(href@, "DELETE"@)),
    {
        self.add_link("delete", Link::new(href).method("DELETE"))
    }
}

} // verus!
