use finlife::shared::pagination::Page;
use finlife::shared::response::PaginationRequest;
use finlife::shared::utils::{extract_pagination_data, offset_of_checked};

fn window(rows: &[u32], page: &Page) -> Vec<u32> {
    let (limit, offset) = page.limit_offset();
    rows.iter().copied().skip(offset as usize).take(limit as usize).collect()
}

#[test]
fn limit_offset_defaults_to_first_page_of_fifty() {
    let page = Page { page: None, per_page: None };
    assert_eq!(page.limit_offset(), (50, 0));
}

#[test]
fn limit_offset_counts_pages_from_one() {
    assert_eq!(Page { page: Some(1), per_page: Some(20) }.limit_offset(), (20, 0));
    assert_eq!(Page { page: Some(2), per_page: Some(20) }.limit_offset(), (20, 20));
    assert_eq!(Page { page: Some(7), per_page: Some(30) }.limit_offset(), (30, 180));
}

#[test]
fn limit_offset_treats_page_zero_as_the_first_page() {
    assert_eq!(Page { page: Some(0), per_page: Some(10) }.limit_offset(), (10, 0));
}

#[test]
fn limit_offset_clamps_the_page_size() {
    assert_eq!(Page { page: Some(1), per_page: Some(0) }.limit_offset(), (1, 0));
    assert_eq!(Page { page: Some(3), per_page: Some(0) }.limit_offset(), (1, 2));
    assert_eq!(Page { page: Some(1), per_page: Some(200) }.limit_offset(), (200, 0));
    assert_eq!(Page { page: Some(2), per_page: Some(201) }.limit_offset(), (200, 200));
    assert_eq!(Page { page: Some(2), per_page: Some(u32::MAX) }.limit_offset(), (200, 200));
}

#[test]
fn two_pages_of_twenty_split_twenty_five_rows() {
    let rows: Vec<u32> = (0..25).collect();
    let first = window(&rows, &Page { page: Some(1), per_page: Some(20) });
    let second = window(&rows, &Page { page: Some(2), per_page: Some(20) });
    assert_eq!(first.len(), 20);
    assert_eq!(second.len(), 5);
    assert!(first.iter().all(|id| !second.contains(id)));
    let mut union: Vec<u32> = first.into_iter().chain(second).collect();
    union.sort();
    assert_eq!(union, rows);
}

#[test]
fn a_third_page_of_twenty_five_rows_is_empty() {
    let rows: Vec<u32> = (0..25).collect();
    assert!(window(&rows, &Page { page: Some(3), per_page: Some(20) }).is_empty());
}

#[test]
fn extract_pagination_data_without_request_gives_nothing() {
    assert_eq!(extract_pagination_data(None), (None, None, None));
}

fn request(page: u32, page_size: u32) -> Option<PaginationRequest> {
    Some(PaginationRequest { page: Some(page), page_size: Some(page_size), search: None })
}

#[test]
fn extract_pagination_data_starts_the_first_page_at_row_zero() {
    assert_eq!(extract_pagination_data(request(1, 20)), (Some(20), Some(0), None));
    assert_eq!(extract_pagination_data(request(1, 1)), (Some(1), Some(0), None));
    assert_eq!(extract_pagination_data(request(1, u32::MAX)), (Some(u32::MAX), Some(0), None));
}

#[test]
fn extract_pagination_data_starts_a_page_where_the_page_before_ends() {
    assert_eq!(extract_pagination_data(request(2, 20)), (Some(20), Some(20), None));
    assert_eq!(extract_pagination_data(request(3, 20)), (Some(20), Some(40), None));
    assert_eq!(extract_pagination_data(request(7, 30)), (Some(30), Some(180), None));
    assert_eq!(extract_pagination_data(request(u32::MAX, 1)), (Some(1), Some(u32::MAX - 1), None));
}

#[test]
fn extract_pagination_data_reads_page_zero_as_the_first_page() {
    assert_eq!(extract_pagination_data(request(0, 20)), (Some(20), Some(0), None));
}

#[test]
fn two_listing_pages_of_twenty_split_twenty_five_rows() {
    let rows: Vec<u32> = (0..25).collect();
    let listed = |page: u32| -> Vec<u32> {
        let (limit, offset, _) = extract_pagination_data(request(page, 20));
        rows.iter().copied().skip(offset.unwrap() as usize).take(limit.unwrap() as usize).collect()
    };
    let first = listed(1);
    let second = listed(2);
    assert_eq!(first.len(), 20);
    assert_eq!(second.len(), 5);
    assert!(first.iter().all(|id| !second.contains(id)));
    let mut union: Vec<u32> = first.into_iter().chain(second).collect();
    union.sort();
    assert_eq!(union, rows);
    assert!(listed(3).is_empty());
}

#[test]
fn an_offset_that_does_not_fit_is_told_before_the_call() {
    let fits = PaginationRequest { page: Some(3), page_size: Some(10), search: None };
    assert_eq!(offset_of_checked(&fits), Some(Some(20)));
    let none = PaginationRequest { page: None, page_size: Some(10), search: None };
    assert_eq!(offset_of_checked(&none), Some(None));
    let first = PaginationRequest { page: Some(1), page_size: Some(u32::MAX), search: None };
    assert_eq!(offset_of_checked(&first), Some(Some(0)));
    let too_far = PaginationRequest { page: Some(3), page_size: Some(u32::MAX), search: None };
    assert_eq!(offset_of_checked(&too_far), None);
}

#[test]
fn extract_pagination_data_needs_both_page_and_size_for_an_offset() {
    let no_size = PaginationRequest { page: Some(3), page_size: None, search: None };
    assert_eq!(extract_pagination_data(Some(no_size)), (None, None, None));
    let no_page = PaginationRequest { page: None, page_size: Some(10), search: None };
    assert_eq!(extract_pagination_data(Some(no_page)), (Some(10), None, None));
}

#[test]
fn extract_pagination_data_hands_the_search_text_on() {
    let request =
        PaginationRequest { page: None, page_size: None, search: Some("home".to_string()) };
    assert_eq!(extract_pagination_data(Some(request)), (None, None, Some("home".to_string())));
}
