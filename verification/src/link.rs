//! A single hypermedia link: an opaque `href`, an optional HTTP method hint
//! and an optional human-readable title.

use vstd::prelude::*;

verus! {

/// Mathematical model of a [`Link`]: the three fields as character sequences.
pub ghost struct LinkSpec {
    pub href: Seq<char>,
    pub method: Option<Seq<char>>,
    pub title: Option<Seq<char>>,
}

impl LinkSpec {
    /// A link carrying only an `href`, as the plain constructor builds it.
    pub open spec fn plain(href: Seq<char>) -> LinkSpec {
        LinkSpec { href, method: None, title: None }
    }

    /// A link carrying an `href` and an HTTP method hint.
    pub open spec fn with_method(href: Seq<char>, method: Seq<char>) -> LinkSpec {
        LinkSpec { href, method: Some(method), title: None }
    }
}

/// A hypermedia link. The `href` is treated as opaque text: it is neither
/// parsed nor validated here.
#[derive(Debug, Clone)]
pub struct Link {
    pub href: String,
    pub method: Option<String>,
    pub title: Option<String>,
}

impl View for Link {
    type V = LinkSpec;

    open spec fn view(&self) -> LinkSpec {
        LinkSpec {
            href: self.href@,
            method: match self.method {
                Some(m) => Some(m@),
                None => None,
            },
            title: match self.title {
                Some(t) => Some(t@),
                None => None,
            },
        }
    }
}

impl Link {
    /// Builds a link with the given `href` and no method or title.
    pub fn new(href: &str) -> (r: Link)
        ensures
            r@ == LinkSpec::plain(href@),
    {
        Link { href: href.to_string(), method: None, title: None }
    }

    /// Returns the link with its HTTP method hint set to `method`.
    pub fn method(self, method: &str) -> (r: Link)
        ensures
            r@ == (LinkSpec { method: Some(method@), ..self@ }),
    {
        Link { method: Some(method.to_string()), ..self }
    }

    /// Returns the link with its human-readable title set to `title`.
    pub fn title(self, title: &str) -> (r: Link)
        ensures
            r@ == (LinkSpec { title: Some(title@), ..self@ }),
    {
        Link { title: Some(title.to_string()), ..self }
    }
}

/// The relation map of an envelope: relation name to [`Link`], keys unique,
/// last write wins. Modelled as a `Map` from the relation's characters to the
/// link's [`LinkSpec`].
pub struct Links {
    items: Vec<(String, Link)>,
}

/// The map a sequence of relation/link pairs denotes: entries nearer the end
/// overwrite earlier ones with the same relation name.
pub open spec fn map_of(s: Seq<(String, Link)>) -> Map<Seq<char>, LinkSpec>
    decreases s.len(),
{
    if s.len() == 0 {
        Map::empty()
    } else {
        map_of(s.drop_last()).insert(s.last().0@, s.last().1@)
    }
}

/// No two entries share a relation name.
pub open spec fn unique_rels(s: Seq<(String, Link)>) -> bool {
    forall|i: int, j: int| 0 <= i < j < s.len() ==> (#[trigger] s[i]).0@ != (#[trigger] s[j]).0@
}

proof fn lemma_map_of_contains(s: Seq<(String, Link)>, k: Seq<char>)
    ensures
        map_of(s).contains_key(k) <==> exists|i: int| 0 <= i < s.len() && (#[trigger] s[i]).0@ == k,
    decreases s.len(),
{
    if s.len() > 0 {
        lemma_map_of_contains(s.drop_last(), k);
        let t = s.drop_last();
        if s.last().0@ == k {
            assert(s[s.len() - 1].0@ == k);
        } else {
            if map_of(s).contains_key(k) {
                let i = choose|i: int| 0 <= i < t.len() && (#[trigger] t[i]).0@ == k;
                assert(s[i].0@ == k);
            }
            if exists|i: int| 0 <= i < s.len() && (#[trigger] s[i]).0@ == k {
                let i = choose|i: int| 0 <= i < s.len() && (#[trigger] s[i]).0@ == k;
                assert(i < s.len() - 1);
                assert(t[i].0@ == k);
            }
        }
    }
}

proof fn lemma_map_of_index(s: Seq<(String, Link)>, i: int)
    requires
        unique_rels(s),
        0 <= i < s.len(),
    ensures
        map_of(s).contains_key(s[i].0@),
        map_of(s)[s[i].0@] == s[i].1@,
    decreases s.len(),
{
    let t = s.drop_last();
    assert(unique_rels(t)) by {
        assert(forall|a: int, b: int|
            0 <= a < b < t.len() ==> (#[trigger] t[a]).0@ != (#[trigger] t[b]).0@) by {
            assert(forall|a: int| 0 <= a < t.len() ==> #[trigger] t[a] == s[a]);
        }
    }
    if i < s.len() - 1 {
        lemma_map_of_index(t, i);
        assert(t[i] == s[i]);
        assert(s.last().0@ != s[i].0@);
    }
}

proof fn lemma_map_of_remove(s: Seq<(String, Link)>, i: int)
    requires
        unique_rels(s),
        0 <= i < s.len(),
    ensures
        map_of(s.remove(i)) == map_of(s).remove(s[i].0@),
{
    let t = s.remove(i);
    let k0 = s[i].0@;
    s.remove_ensures(i);
    assert(unique_rels(t)) by {
        assert forall|a: int, b: int| 0 <= a < b < t.len() implies (#[trigger] t[a]).0@ != (
        #[trigger] t[b]).0@ by {
            let sa: int = if a < i {
                a
            } else {
                a + 1
            };
            let sb: int = if b < i {
                b
            } else {
                b + 1
            };
            assert(t[a] == s[sa]);
            assert(t[b] == s[sb]);
        }
    }
    assert forall|k: Seq<char>| #[trigger]
        map_of(t).contains_key(k) implies map_of(s).remove(k0).contains_key(k) && map_of(t)[k]
        == map_of(s).remove(k0)[k] by {
        lemma_map_of_contains(t, k);
        let a = choose|a: int| 0 <= a < t.len() && (#[trigger] t[a]).0@ == k;
        let sa: int = if a < i {
            a
        } else {
            a + 1
        };
        assert(t[a] == s[sa]);
        assert(sa != i);
        assert(k != k0);
        lemma_map_of_index(s, sa);
        lemma_map_of_index(t, a);
    }
    assert forall|k: Seq<char>| #[trigger]
        map_of(s).remove(k0).contains_key(k) implies map_of(t).contains_key(k) by {
        lemma_map_of_contains(s, k);
        let a = choose|a: int| 0 <= a < s.len() && (#[trigger] s[a]).0@ == k;
        assert(a != i);
        let ta: int = if a < i {
            a
        } else {
            a - 1
        };
        assert(t[ta] == s[a]);
        lemma_map_of_contains(t, k);
    }
    assert(map_of(t) =~= map_of(s).remove(k0));
}

proof fn lemma_map_of_dom_len(s: Seq<(String, Link)>)
    requires
        unique_rels(s),
    ensures
        map_of(s).dom().finite(),
        map_of(s).dom().len() == s.len(),
    decreases s.len(),
{
    if s.len() > 0 {
        let t = s.drop_last();
        assert(unique_rels(t)) by {
            assert(forall|a: int| 0 <= a < t.len() ==> #[trigger] t[a] == s[a]);
        }
        lemma_map_of_dom_len(t);
        lemma_map_of_contains(t, s.last().0@);
        assert(forall|a: int| 0 <= a < t.len() ==> (#[trigger] t[a]).0@ != s.last().0@) by {
            assert(forall|a: int| 0 <= a < t.len() ==> #[trigger] t[a] == s[a]);
        }
        assert(!map_of(t).contains_key(s.last().0@));
        assert(map_of(s).dom() =~= map_of(t).dom().insert(s.last().0@));
    } else {
        assert(map_of(s).dom() =~= Set::<Seq<char>>::empty());
    }
}

impl View for Links {
    type V = Map<Seq<char>, LinkSpec>;

    closed spec fn view(&self) -> Map<Seq<char>, LinkSpec> {
        map_of(self.items@)
    }
}

impl Links {
    #[verifier::type_invariant]
    spec fn wf(self) -> bool {
        unique_rels(self.items@)
    }

    /// An empty relation map.
    pub fn new() -> (r: Links)
        ensures
            r@ == Map::<Seq<char>, LinkSpec>::empty(),
    {
        Links { items: Vec::new() }
    }

    fn find_index(&self, rel: &str) -> (r: Option<usize>)
        ensures
            match r {
                Some(i) => i < self.items@.len() && self.items@[i as int].0@ == rel@,
                None => forall|i: int| 0 <= i < self.items@.len() ==> (#[trigger] self.items@[i]).0@
                    != rel@,
            },
    {
        let rel_string = String::from_str(rel);
        let n = self.items.len();
        let mut j: usize = 0;
        while j < n
            invariant
                n == self.items@.len(),
                j <= n,
                rel_string@ == rel@,
                forall|i: int| 0 <= i < j ==> (#[trigger] self.items@[i]).0@ != rel@,
            decreases n - j,
        {
            if self.items[j].0 == rel_string {
                return Some(j);
            }
            j = j + 1;
        }
        None
    }

    /// Inserts `rel -> link`, replacing any link already held under `rel`.
    pub fn insert(self, rel: &str, link: Link) -> (r: Links)
        ensures
            r@ == self@.insert(rel@, link@),
    {
        proof {
            use_type_invariant(&self);
        }
        let ghost s0 = self.items@;
        let found = self.find_index(rel);
        let Links { items: mut v } = self;
        match found {
            Some(i) => {
                v.remove(i);
                v.push((String::from_str(rel), link));
                proof {
                    lemma_map_of_remove(s0, i as int);
                    s0.remove_ensures(i as int);
                    assert(v@.drop_last() =~= s0.remove(i as int));
                    assert(map_of(v@) =~= map_of(s0).insert(rel@, link@));
                    assert forall|a: int, b: int| 0 <= a < b < v@.len() implies (
                    #[trigger] v@[a]).0@ != (#[trigger] v@[b]).0@ by {
                        let t = s0.remove(i as int);
                        if b < v@.len() - 1 {
                            assert(v@[a] == t[a]);
                            assert(v@[b] == t[b]);
                        } else {
                            assert(v@[a] == t[a]);
                            let sa: int = if a < i {
                                a
                            } else {
                                a + 1
                            };
                            assert(t[a] == s0[sa]);
                            assert(sa != i);
                            assert(s0[sa].0@ != s0[i as int].0@);
                        }
                    }
                }
            },
            None => {
                v.push((String::from_str(rel), link));
                proof {
                    assert(v@.drop_last() =~= s0);
                    assert(map_of(v@) =~= map_of(s0).insert(rel@, link@));
                }
            },
        }
        Links { items: v }
    }

    /// Looks a relation up; `None` exactly when no link is held under `rel`.
    pub fn get(&self, rel: &str) -> (r: Option<&Link>)
        ensures
            match r {
                Some(l) => self@.contains_key(rel@) && l@ == self@[rel@],
                None => !self@.contains_key(rel@),
            },
    {
        proof {
            use_type_invariant(self);
        }
        match self.find_index(rel) {
            Some(i) => {
                proof {
                    lemma_map_of_index(self.items@, i as int);
                }
                Some(&self.items[i].1)
            },
            None => {
                proof {
                    lemma_map_of_contains(self.items@, rel@);
                }
                None
            },
        }
    }

    /// Whether a link is held under `rel`.
    pub fn contains(&self, rel: &str) -> (r: bool)
        ensures
            r == self@.contains_key(rel@),
    {
        self.get(rel).is_some()
    }

    /// The number of relations held.
    pub fn len(&self) -> (r: usize)
        ensures
            r == self@.dom().len(),
    {
        proof {
            use_type_invariant(self);
            lemma_map_of_dom_len(self.items@);
        }
        self.items.len()
    }

    /// The relation/link pairs, one per relation, for callers that need to
    /// walk the whole map (iteration order carries no meaning).
    pub fn pairs(&self) -> (r: &Vec<(String, Link)>)
        ensures
            r@.len() == self@.dom().len(),
            forall|i: int| 0 <= i < r@.len() ==> self@.contains_key((#[trigger] r@[i]).0@)
                && self@[r@[i].0@] == r@[i].1@,
    {
        proof {
            use_type_invariant(self);
            lemma_map_of_dom_len(self.items@);
            assert forall|i: int| 0 <= i < self.items@.len() implies self@.contains_key((
            #[trigger] self.items@[i]).0@) && self@[self.items@[i].0@] == self.items@[i].1@ by {
                lemma_map_of_index(self.items@, i);
            }
        }
        &self.items
    }
}

} // verus!
