use email_manager::errors::ApiError;
use email_manager::handlers::emails::{
    filter_by_min_score, parse_limit, validate_bulk_delete, validate_search_query,
};
use email_manager::models::{BulkDeleteRequest, EmailSummary, SearchQuery};

fn email_with_score(id: &str, score: u8) -> EmailSummary {
    EmailSummary {
        id: id.to_string(),
        subject: "s".to_string(),
        sender: "n".to_string(),
        sender_email: "n@x.com".to_string(),
        date: 0,
        snippet: String::new(),
        is_read: true,
        labels: vec![],
        importance_score: score,
    }
}

#[test]
fn test_empty_search_query_rejected() {
    let query = SearchQuery { query: String::new(), min_score: 1 };
    let r = validate_search_query(&query);
    assert!(matches!(r, Err(ApiError::ValidationError(m)) if m == "Search query cannot be empty"));
}

#[test]
fn test_nonempty_search_query_accepted() {
    let query = SearchQuery { query: "from:jane".to_string(), min_score: 1 };
    assert!(validate_search_query(&query).is_ok());
}

#[test]
fn test_empty_bulk_delete_rejected() {
    let request = BulkDeleteRequest { ids: vec![] };
    let r = validate_bulk_delete(&request);
    assert!(
        matches!(r, Err(ApiError::ValidationError(m)) if m == "No email IDs provided for deletion")
    );
}

#[test]
fn test_nonempty_bulk_delete_accepted() {
    let request = BulkDeleteRequest { ids: vec!["a".to_string()] };
    assert!(validate_bulk_delete(&request).is_ok());
}

#[test]
fn test_parse_limit() {
    assert_eq!(parse_limit("25"), 25);
    assert_eq!(parse_limit("+7"), 7);
    assert_eq!(parse_limit("0"), 0);
    assert_eq!(parse_limit("4294967295"), u32::MAX);
    assert_eq!(parse_limit("4294967296"), 10);
    assert_eq!(parse_limit("99999999999999999999"), 10);
    assert_eq!(parse_limit("abc"), 10);
    assert_eq!(parse_limit("12a"), 10);
    assert_eq!(parse_limit("-3"), 10);
    assert_eq!(parse_limit(""), 10);
    assert_eq!(parse_limit("+"), 10);
}

#[test]
fn test_filter_by_min_score_keeps_order() {
    let emails = vec![
        email_with_score("a", 1),
        email_with_score("b", 3),
        email_with_score("c", 2),
    ];

    let all = filter_by_min_score(emails.clone(), 1);
    assert_eq!(all.len(), 3);

    let mid = filter_by_min_score(emails.clone(), 2);
    let mid_ids: Vec<&str> = mid.iter().map(|e| e.id.as_str()).collect();
    assert_eq!(mid_ids, vec!["b", "c"]);

    let high = filter_by_min_score(emails, 3);
    let high_ids: Vec<&str> = high.iter().map(|e| e.id.as_str()).collect();
    assert_eq!(high_ids, vec!["b"]);
}
