use random_points::query::{is_count, PointsRequest, QueryError, QueryPair};

fn pair(name: &str, value: &str) -> QueryPair {
    QueryPair { name: name.as_bytes().to_vec(), value: value.as_bytes().to_vec() }
}

#[test]
fn count_name_is_lower_case_n_only() {
    assert!(is_count(b"n"));
    assert!(!is_count(b"N"));
    assert!(!is_count(b""));
    assert!(!is_count(b"nn"));
    assert!(!is_count(b" n"));
}

#[test]
fn pairs_give_the_count() {
    let pairs = vec![pair("n", "12")];
    assert_eq!(PointsRequest::from_pairs(&pairs), Ok(PointsRequest { n: 12 }));
}

#[test]
fn pairs_under_other_names_are_ignored() {
    let pairs = vec![pair("a", "x"), pair("n", "3"), pair("m", "9"), pair("", "")];
    assert_eq!(PointsRequest::from_pairs(&pairs), Ok(PointsRequest { n: 3 }));
}

#[test]
fn no_pairs_is_missing() {
    let pairs: Vec<QueryPair> = Vec::new();
    assert_eq!(PointsRequest::from_pairs(&pairs), Err(QueryError::MissingCount));
}

#[test]
fn other_names_only_is_missing() {
    let pairs = vec![pair("N", "3"), pair("count", "3")];
    assert_eq!(PointsRequest::from_pairs(&pairs), Err(QueryError::MissingCount));
}

#[test]
fn bad_value_is_invalid() {
    assert_eq!(PointsRequest::from_pairs(&vec![pair("n", "abc")]), Err(QueryError::InvalidCount));
    assert_eq!(PointsRequest::from_pairs(&vec![pair("n", "")]), Err(QueryError::InvalidCount));
    assert_eq!(PointsRequest::from_pairs(&vec![pair("n", "-1")]), Err(QueryError::InvalidCount));
    assert_eq!(PointsRequest::from_pairs(&vec![pair("n", " 5")]), Err(QueryError::InvalidCount));
}

#[test]
fn second_count_is_duplicate() {
    let pairs = vec![pair("n", "1"), pair("n", "1")];
    assert_eq!(PointsRequest::from_pairs(&pairs), Err(QueryError::DuplicateCount));
    let pairs = vec![pair("n", "1"), pair("x", "0"), pair("n", "oops")];
    assert_eq!(PointsRequest::from_pairs(&pairs), Err(QueryError::DuplicateCount));
}

#[test]
fn bad_first_value_wins_over_duplicate() {
    let pairs = vec![pair("n", "oops"), pair("n", "1")];
    assert_eq!(PointsRequest::from_pairs(&pairs), Err(QueryError::InvalidCount));
}

#[test]
fn query_string_gives_the_count() {
    assert_eq!(PointsRequest::parse("n=5"), Ok(PointsRequest { n: 5 }));
    assert_eq!(PointsRequest::parse("n=0"), Ok(PointsRequest { n: 0 }));
    assert_eq!(PointsRequest::parse("a=1&n=3&b=2"), Ok(PointsRequest { n: 3 }));
    assert_eq!(PointsRequest::parse("&&n=3&"), Ok(PointsRequest { n: 3 }));
}

#[test]
fn query_string_is_percent_decoded() {
    assert_eq!(PointsRequest::parse("%6E=7"), Ok(PointsRequest { n: 7 }));
    assert_eq!(PointsRequest::parse("n=%31%32"), Ok(PointsRequest { n: 12 }));
    assert_eq!(PointsRequest::parse("n=%2B5"), Ok(PointsRequest { n: 5 }));
}

#[test]
fn plus_in_query_string_is_a_space() {
    assert_eq!(PointsRequest::parse("n=+5"), Err(QueryError::InvalidCount));
    assert_eq!(PointsRequest::parse("n=5+"), Err(QueryError::InvalidCount));
}

#[test]
fn query_string_without_count_is_missing() {
    assert_eq!(PointsRequest::parse(""), Err(QueryError::MissingCount));
    assert_eq!(PointsRequest::parse("m=3"), Err(QueryError::MissingCount));
    assert_eq!(PointsRequest::parse("N=3"), Err(QueryError::MissingCount));
    assert_eq!(PointsRequest::parse("=3"), Err(QueryError::MissingCount));
}

#[test]
fn query_string_with_bad_count_is_invalid() {
    assert_eq!(PointsRequest::parse("n"), Err(QueryError::InvalidCount));
    assert_eq!(PointsRequest::parse("n="), Err(QueryError::InvalidCount));
    assert_eq!(PointsRequest::parse("n=abc"), Err(QueryError::InvalidCount));
    assert_eq!(PointsRequest::parse("n=-1"), Err(QueryError::InvalidCount));
    assert_eq!(PointsRequest::parse("n=1.5"), Err(QueryError::InvalidCount));
    assert_eq!(PointsRequest::parse("n=1=2"), Err(QueryError::InvalidCount));
    assert_eq!(PointsRequest::parse("n=%FF"), Err(QueryError::InvalidCount));
}

#[test]
fn query_string_with_two_counts_is_duplicate() {
    assert_eq!(PointsRequest::parse("n=3&n=3"), Err(QueryError::DuplicateCount));
    assert_eq!(PointsRequest::parse("n=3&x=1&%6E=4"), Err(QueryError::DuplicateCount));
}
