use api::shared::paged::{PageQueryParams, Paged, RequestPageParams};

#[test]
fn paged_default_is_first_empty_page() {
    let page: Paged<u32> = Paged::default();
    assert!(page.items.is_empty());
    assert_eq!(page.total_items, 0);
    assert_eq!(page.total_pages, 1);
    assert_eq!(page.page, 1);
}

#[test]
fn page_query_params_default_takes_twenty() {
    assert_eq!(PageQueryParams::default(), PageQueryParams { skip: 0, take: 20 });
}

#[test]
fn page_query_params_from_request() {
    let p = PageQueryParams::from(RequestPageParams { page: 3, per_page: 10 });
    assert_eq!(p, PageQueryParams { skip: 20, take: 10 });
    let first = PageQueryParams::from(RequestPageParams { page: 1, per_page: 25 });
    assert_eq!(first, PageQueryParams { skip: 0, take: 25 });
}

#[test]
fn page_zero_is_read_as_first_page() {
    let p = PageQueryParams::from(RequestPageParams { page: 0, per_page: 10 });
    assert_eq!(p, PageQueryParams { skip: 0, take: 10 });
}

#[test]
fn from_tuple_rounds_pages_up() {
    let page = Paged::from_tuple((21, vec![1, 2, 3]), RequestPageParams { page: 2, per_page: 10 });
    assert_eq!(page.items, vec![1, 2, 3]);
    assert_eq!(page.total_items, 21);
    assert_eq!(page.total_pages, 3);
    assert_eq!(page.page, 2);
}

#[test]
fn from_tuple_exact_division() {
    let page: Paged<u8> = Paged::from_tuple((20, vec![]), RequestPageParams { page: 1, per_page: 10 });
    assert_eq!(page.total_pages, 2);
}

#[test]
fn from_tuple_empty_listing_has_no_pages() {
    let page: Paged<u8> = Paged::from_tuple((0, vec![]), RequestPageParams { page: 1, per_page: 10 });
    assert_eq!(page.total_pages, 0);
}

#[test]
fn from_tuple_without_page_size() {
    let empty: Paged<u8> = Paged::from_tuple((0, vec![]), RequestPageParams { page: 1, per_page: 0 });
    assert_eq!(empty.total_pages, 0);
    let some: Paged<u8> = Paged::from_tuple((5, vec![]), RequestPageParams { page: 1, per_page: 0 });
    assert_eq!(some.total_pages, usize::MAX);
}

#[test]
fn counted_pages_start_inside_the_listing() {
    let total = 21;
    let per_page = 10;
    let pages = Paged::<u8>::from_tuple((total, vec![]), RequestPageParams { page: 1, per_page }).total_pages;
    for page in 1..=pages {
        let q = PageQueryParams::from(RequestPageParams { page, per_page });
        assert!(q.skip < total);
    }
    let after = PageQueryParams::from(RequestPageParams { page: pages + 1, per_page });
    assert!(after.skip >= total);
}
