use hateoas::{CollectionResponse, Link, PaginationParams};

fn state(page: u32, total_pages: u32) -> PaginationParams {
    PaginationParams {
        total: (total_pages as u64) * 10,
        page,
        limit: 10,
        total_pages,
        has_prev: page > 1,
        has_next: page < total_pages,
        has_last: total_pages > 1 && page < total_pages,
    }
}

#[test]
fn page_url_formulas() {
    let p = state(3, 5);
    assert_eq!(p.current_page_url("/w"), "/w?page=3&limit=10");
    assert_eq!(p.first_page_url("/w"), "/w?page=1&limit=10");
    assert_eq!(p.prev_page_url("/w"), "/w?page=2&limit=10");
    assert_eq!(p.next_page_url("/w"), "/w?page=4&limit=10");
    assert_eq!(p.last_page_url("/w"), "/w?page=5&limit=10");
}

#[test]
fn page_url_multi_digit_numbers() {
    let p = PaginationParams {
        total: 2400,
        page: 12,
        limit: 200,
        total_pages: 12,
        has_prev: true,
        has_next: false,
        has_last: false,
    };
    assert_eq!(p.current_page_url("/items"), "/items?page=12&limit=200");
    assert_eq!(p.prev_page_url("/items"), "/items?page=11&limit=200");
}

#[test]
fn meta_is_frozen_at_construction() {
    let p = PaginationParams {
        total: 57,
        page: 2,
        limit: 10,
        total_pages: 6,
        has_prev: true,
        has_next: true,
        has_last: true,
    };
    let c = CollectionResponse::new(vec![1u32, 2, 3], &p);
    assert_eq!(c.meta.total, 57);
    assert_eq!(c.meta.page, 2);
    assert_eq!(c.meta.limit, 10);
    assert_eq!(c.meta.total_pages, 6);
}

#[test]
fn data_order_is_preserved() {
    let p = state(1, 1);
    let c = CollectionResponse::new(vec!["b", "a", "c"], &p);
    assert_eq!(c.data, vec!["b", "a", "c"]);
}

#[test]
fn single_page_has_only_self_and_first() {
    let p = state(1, 1);
    let c = CollectionResponse::new(Vec::<u8>::new(), &p).with_pagination_links("/w", &p);
    assert_eq!(c.links.len(), 2);
    assert!(c.links.contains("self"));
    assert!(c.links.contains("first"));
    assert!(!c.links.contains("prev"));
    assert!(!c.links.contains("next"));
    assert!(!c.links.contains("last"));
}

#[test]
fn first_of_many_pages_has_no_prev() {
    let p = state(1, 3);
    let c = CollectionResponse::new(vec![0u8], &p).with_pagination_links("/w", &p);
    assert_eq!(c.links.len(), 4);
    assert!(c.links.contains("self"));
    assert!(c.links.contains("first"));
    assert!(c.links.contains("next"));
    assert!(c.links.contains("last"));
    assert!(!c.links.contains("prev"));
}

#[test]
fn last_of_many_pages_has_no_next_or_last() {
    let p = state(3, 3);
    let c = CollectionResponse::new(vec![0u8], &p).with_pagination_links("/w", &p);
    assert_eq!(c.links.len(), 3);
    assert!(c.links.contains("self"));
    assert!(c.links.contains("first"));
    assert!(c.links.contains("prev"));
    assert!(!c.links.contains("next"));
    assert!(!c.links.contains("last"));
}

#[test]
fn intermediate_page_has_all_five() {
    let p = state(3, 5);
    let c = CollectionResponse::new(vec![0u8], &p).with_pagination_links("/w", &p);
    assert_eq!(c.links.len(), 5);
    for rel in ["self", "first", "prev", "next", "last"] {
        assert!(c.links.contains(rel));
    }
}

#[test]
fn assembling_twice_changes_nothing() {
    let p = state(2, 4);
    let once = CollectionResponse::new(vec![9u8], &p).with_pagination_links("/w", &p);
    let twice =
        CollectionResponse::new(vec![9u8], &p).with_pagination_links("/w", &p).with_pagination_links(
            "/w", &p,
        );
    assert_eq!(once.links.len(), twice.links.len());
    for rel in ["self", "first", "prev", "next", "last"] {
        let a = once.links.get(rel);
        let b = twice.links.get(rel);
        match (a, b) {
            (Some(x), Some(y)) => {
                assert_eq!(x.href, y.href);
                assert_eq!(x.method, y.method);
                assert_eq!(x.title, y.title);
            },
            (None, None) => {},
            _ => panic!("relation {} differs between one and two assemblies", rel),
        }
    }
}

#[test]
fn widgets_scenario() {
    let base = "https://api.example.com/widgets";
    let p = PaginationParams {
        total: 50,
        page: 3,
        limit: 10,
        total_pages: 5,
        has_prev: true,
        has_next: true,
        has_last: true,
    };
    let c = CollectionResponse::new(vec![1u32, 2, 3], &p).with_pagination_links(base, &p);
    assert_eq!(c.links.len(), 5);
    assert_eq!(c.links.get("self").unwrap().href, p.current_page_url(base));
    assert_eq!(
        c.links.get("self").unwrap().href,
        "https://api.example.com/widgets?page=3&limit=10"
    );
    assert_eq!(
        c.links.get("first").unwrap().href,
        "https://api.example.com/widgets?page=1&limit=10"
    );
    assert_eq!(
        c.links.get("prev").unwrap().href,
        "https://api.example.com/widgets?page=2&limit=10"
    );
    assert_eq!(
        c.links.get("next").unwrap().href,
        "https://api.example.com/widgets?page=4&limit=10"
    );
    assert_eq!(
        c.links.get("last").unwrap().href,
        "https://api.example.com/widgets?page=5&limit=10"
    );
    assert!(!c.links.contains("collection"));
}

#[test]
fn assembly_keeps_domain_relations() {
    let p = state(1, 2);
    let c = CollectionResponse::new(vec![0u8], &p)
        .add_link("describedby", Link::new("/docs"))
        .with_pagination_links("/w", &p);
    assert!(c.links.contains("describedby"));
    assert_eq!(c.links.get("describedby").unwrap().href, "/docs");
    assert_eq!(c.links.len(), 5);
}
