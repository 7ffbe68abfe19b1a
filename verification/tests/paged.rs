use szurubooru_client::paged::convert_page;
use szurubooru_client::paged::PagedSearchResult;

#[test]
fn page_holds_no_more_items_than_its_limit() {
    let page = PagedSearchResult::new(String::from("tag:cat"), 0, 2, 5, vec![10u32, 20u32]);
    assert_eq!(page.query, "tag:cat");
    assert_eq!(page.offset, 0);
    assert_eq!(page.limit, 2);
    assert_eq!(page.total, 5);
    assert_eq!(page.results.len(), 2);
    assert!(page.results.len() <= page.limit as usize);
}

#[test]
fn total_is_independent_of_page_length() {
    let page: PagedSearchResult<u8> = PagedSearchResult::new(String::from("q"), 4, 10, 123, vec![]);
    assert_eq!(page.total, 123);
    assert_eq!(page.results.len(), 0);
}

#[test]
fn conversion_keeps_length_order_and_scalars() {
    let page = PagedSearchResult::new(String::from("sort:random"), 3, 7, 40, vec![1u32, 2, 3]);
    let converted = convert_page(page, |v: u32| format!("item-{}", v));
    assert_eq!(converted.query, "sort:random");
    assert_eq!(converted.offset, 3);
    assert_eq!(converted.limit, 7);
    assert_eq!(converted.total, 40);
    assert_eq!(converted.results, vec!["item-1", "item-2", "item-3"]);
}

#[test]
fn conversion_of_an_empty_page_is_empty() {
    let page: PagedSearchResult<u64> = PagedSearchResult::new(String::from(""), 0, 1, 0, vec![]);
    let converted = convert_page(page, |v: u64| v + 1);
    assert_eq!(converted.results.len(), 0);
    assert_eq!(converted.limit, 1);
}
