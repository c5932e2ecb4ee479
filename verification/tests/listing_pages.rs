use s3_browser_tool::error::S3ExampleError;
use s3_browser_tool::listing::{page_lines, page_report, KeyListing, PageReport, PRINT_PAGE_SIZE};

fn page(items: &[Option<&str>]) -> Vec<Option<String>> {
    items.iter().map(|o| o.map(|s| s.to_string())).collect()
}

#[test]
fn keys_collected_across_pages_in_order() {
    let mut listing = KeyListing::new();
    assert_eq!(listing.absorb_page(Ok(page(&[Some("a"), None, Some("b")]))), Ok(()));
    assert_eq!(listing.absorb_page(Ok(page(&[]))), Ok(()));
    assert_eq!(listing.absorb_page(Ok(page(&[Some("c")]))), Ok(()));
    assert_eq!(listing.into_keys(), vec!["a".to_string(), "b".to_string(), "c".to_string()]);
}

#[test]
fn empty_listing_has_no_keys() {
    assert!(KeyListing::new().into_keys().is_empty());
}

#[test]
fn error_page_ends_listing_with_that_error() {
    let mut listing = KeyListing::new();
    listing.absorb_page(Ok(page(&[Some("a")]))).unwrap();
    let err = S3ExampleError("NoSuchBucket: gone".to_string());
    assert_eq!(listing.absorb_page(Err(err.clone())), Err(err));
    assert_eq!(listing.into_keys(), vec!["a".to_string()]);
}

#[test]
fn split_of_pages_does_not_matter() {
    let mut one = KeyListing::new();
    one.absorb_page(Ok(page(&[Some("a"), Some("b"), None, Some("c")]))).unwrap();
    let mut two = KeyListing::new();
    two.absorb_page(Ok(page(&[Some("a"), Some("b")]))).unwrap();
    two.absorb_page(Ok(page(&[None, Some("c")]))).unwrap();
    assert_eq!(one.into_keys(), two.into_keys());
}

#[test]
fn printed_lines_name_keys_or_unknown() {
    let lines = page_lines(&page(&[Some("a.txt"), None]));
    assert_eq!(lines, vec![" - a.txt".to_string(), " - Unknown".to_string()]);
    assert!(page_lines(&Vec::new()).is_empty());
}

#[test]
fn printed_pages_hold_ten_keys() {
    assert_eq!(PRINT_PAGE_SIZE, 10);
}

#[test]
fn answered_page_is_printed_line_by_line() {
    let r = page_report(Ok(page(&[Some("x.txt"), None])));
    assert_eq!(
        r,
        PageReport::Printed(vec![" - x.txt".to_string(), " - Unknown".to_string()])
    );
}

#[test]
fn failed_page_reports_its_error() {
    let r = page_report(Err("ServiceError { .. }".to_string()));
    assert_eq!(r, PageReport::Failed("ServiceError { .. }".to_string()));
}
