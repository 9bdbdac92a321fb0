use sequence_rs::{next_page, resolve_page_size, Paginator, DEFAULT_PAGE_SIZE};

#[test]
fn page_size_is_requested_else_default_and_at_least_one() {
    assert_eq!(resolve_page_size(Some(2), DEFAULT_PAGE_SIZE), 2);
    assert_eq!(resolve_page_size(None, DEFAULT_PAGE_SIZE), 100);
    assert_eq!(resolve_page_size(Some(0), DEFAULT_PAGE_SIZE), 1);
    assert_eq!(resolve_page_size(None, 0), 1);
}

#[test]
fn short_page_is_the_last() {
    assert_eq!(next_page(2, 1, 2), Some(2));
    assert_eq!(next_page(1, 2, 2), None);
    assert_eq!(next_page(0, 1, 1), None);
    assert_eq!(next_page(5, 3, 2), Some(4));
}

#[test]
fn accounts_stream_stops_on_short_page() {
    // Page size 2: a full first page, then a short second one ends the listing.
    let mut p = Paginator::new(Some(2), DEFAULT_PAGE_SIZE);
    assert_eq!(p.next_request(), Some((1, 2)));
    p.advance(2);
    assert_eq!(p.next_request(), Some((2, 2)));
    p.advance(1);
    assert_eq!(p.next_request(), None);
}

#[test]
fn accounts_stream_clamps_zero_page_size() {
    let mut p = Paginator::new(Some(0), DEFAULT_PAGE_SIZE);
    assert_eq!(p.next_request(), Some((1, 1)));
    p.advance(0);
    assert_eq!(p.next_request(), None);
}

#[test]
fn listing_requests_consecutive_pages_until_the_first_short_one() {
    let mut p = Paginator::new(Some(3), DEFAULT_PAGE_SIZE);
    let mut requested = Vec::new();
    for count in [3usize, 3, 3, 2, 3] {
        match p.next_request() {
            Some((page, size)) => {
                assert_eq!(size, 3);
                requested.push(page);
                p.advance(count);
            }
            None => break,
        }
    }
    assert_eq!(requested, vec![1, 2, 3, 4]);
    assert_eq!(p.next_request(), None);
}
