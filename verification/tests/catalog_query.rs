use b2b_product_catalog_quote_system_api::catalog::ProductQuery;

#[test]
fn paging_defaults_and_limits() {
    assert_eq!(ProductQuery::default().page_window(), (1, 20, 0));
    let q = ProductQuery { page: Some(3), limit: Some(50), ..ProductQuery::default() };
    assert_eq!(q.page_window(), (3, 50, 100));
    let q = ProductQuery { page: Some(-5), limit: Some(1000), ..ProductQuery::default() };
    assert_eq!(q.page_window(), (1, 100, 0));
    let q = ProductQuery { page: Some(i32::MAX), limit: Some(0), ..ProductQuery::default() };
    assert_eq!(q.page_window(), (1_000_000, 1, 999_999));
}

#[test]
fn search_pattern_wraps_the_words() {
    assert_eq!(ProductQuery::default().search_pattern(), None);
    let q = ProductQuery { search: Some("' OR 1=1--".to_string()), ..ProductQuery::default() };
    assert_eq!(q.search_pattern(), Some("%' OR 1=1--%".to_string()));
}
