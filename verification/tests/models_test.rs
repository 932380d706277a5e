use email_manager::models::{default_min_score, EmailSummary, ImportanceScore};

#[test]
fn test_email_summary_creation() {
    let email = EmailSummary {
        id: "test123".to_string(),
        subject: "Test Subject".to_string(),
        sender: "John Doe".to_string(),
        sender_email: "john@example.com".to_string(),
        date: 1_700_000_000,
        snippet: "This is a test...".to_string(),
        is_read: false,
        labels: vec!["INBOX".to_string()],
        importance_score: 2,
    };

    assert_eq!(email.importance_score, 2);
    assert_eq!(email.sender, "John Doe");
}

#[test]
fn test_importance_score_values() {
    assert_eq!(ImportanceScore::Low.as_u8(), 1);
    assert_eq!(ImportanceScore::Normal.as_u8(), 2);
    assert_eq!(ImportanceScore::High.as_u8(), 3);
}

#[test]
fn test_default_min_score() {
    assert_eq!(default_min_score(), 1);
}
