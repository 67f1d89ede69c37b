use sqli_practice::query::build_search_query;
use sqli_practice::query::normalize_search;

#[test]
fn no_term_selects_everything() {
    assert_eq!(build_search_query(None), "Select * from local_flight_data");
}

#[test]
fn a_term_is_spliced_between_the_like_quotes() {
    assert_eq!(
        build_search_query(Some("Boeing")),
        "Select * from local_flight_data where manufacturer LIKE '%Boeing%';"
    );
}

#[test]
fn the_term_lands_in_the_query_verbatim() {
    let q = build_search_query(Some("' OR '1'='1"));
    assert_eq!(
        q,
        "Select * from local_flight_data where manufacturer LIKE '%' OR '1'='1%';"
    );
    assert!(q.contains("' OR '1'='1"));
}

#[test]
fn normalization_drops_only_the_empty_term() {
    assert_eq!(normalize_search(None), None);
    assert_eq!(normalize_search(Some(String::new())), None);
    assert_eq!(normalize_search(Some("a".to_string())), Some("a".to_string()));
    assert_eq!(normalize_search(Some(" ".to_string())), Some(" ".to_string()));
}
