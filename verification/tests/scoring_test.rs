use email_manager::services::scoring::EmailScorer;

#[test]
fn test_score_promotional_email() {
    let scorer = EmailScorer::new();

    let score = scorer.calculate_score("newsletter@company.com", "50% off sale!", &["PROMOTIONS"]);
    assert_eq!(score, 1);
}

#[test]
fn test_score_noreply_email() {
    let scorer = EmailScorer::new();

    let score =
        scorer.calculate_score("noreply@service.com", "Your order confirmation", &["INBOX"]);
    assert_eq!(score, 1);
}

#[test]
fn test_score_urgent_email() {
    let scorer = EmailScorer::new();

    let score = scorer.calculate_score("boss@work.com", "URGENT: Need this by EOD", &["INBOX"]);
    assert_eq!(score, 3);
}

#[test]
fn test_score_important_domain() {
    let mut scorer = EmailScorer::new();
    scorer.add_important_domain("work.com");

    let score = scorer.calculate_score("colleague@work.com", "Meeting notes", &["INBOX"]);
    assert_eq!(score, 3);
}

#[test]
fn test_score_regular_email() {
    let scorer = EmailScorer::new();

    let score = scorer.calculate_score("friend@gmail.com", "Hey, how are you?", &["INBOX"]);
    assert_eq!(score, 2);
}

#[test]
fn test_spam_label_beats_every_high_signal() {
    let mut scorer = EmailScorer::new();
    scorer.add_important_domain("work.com");

    let score = scorer.calculate_score("boss@work.com", "URGENT: action required", &["SPAM"]);
    assert_eq!(score, 1);
    let score = scorer.calculate_score("boss@work.com", "URGENT: action required", &["PROMOTIONS"]);
    assert_eq!(score, 1);
}

#[test]
fn test_spam_indicator_is_case_insensitive() {
    let scorer = EmailScorer::new();

    let score = scorer.calculate_score("NOREPLY@SERVICE.COM", "Hello", &["INBOX"]);
    assert_eq!(score, 1);
}

#[test]
fn test_important_label_scores_high() {
    let scorer = EmailScorer::new();

    let score = scorer.calculate_score("friend@gmail.com", "Lunch?", &["INBOX", "IMPORTANT"]);
    assert_eq!(score, 3);
}

#[test]
fn test_register_same_domain_twice() {
    let mut scorer = EmailScorer::new();
    scorer.add_important_domain("work.com");
    scorer.add_important_domain("work.com");

    let score = scorer.calculate_score("colleague@work.com", "Meeting notes", &["INBOX"]);
    assert_eq!(score, 3);
    let score = scorer.calculate_score("other@home.org", "Meeting notes", &["INBOX"]);
    assert_eq!(score, 2);
}

#[test]
fn test_address_without_at_has_no_domain() {
    let mut scorer = EmailScorer::new();
    scorer.add_important_domain("work.com");

    let score = scorer.calculate_score("work.com", "Meeting notes", &["INBOX"]);
    assert_eq!(score, 2);
}

#[test]
fn test_urgent_keyword_matches_inside_word() {
    let scorer = EmailScorer::new();

    let score = scorer.calculate_score("friend@gmail.com", "please reply asap!", &["INBOX"]);
    assert_eq!(score, 3);
}

#[test]
fn test_trusted_domain_is_case_sensitive() {
    let mut scorer = EmailScorer::new();
    scorer.add_important_domain("work.com");

    let score = scorer.calculate_score("colleague@Work.com", "Meeting notes", &["INBOX"]);
    assert_eq!(score, 2);
}
