use greenverify::governance::GovernanceScorer;

fn scorer() -> GovernanceScorer {
    GovernanceScorer::new()
}

#[test]
fn test_board_size_optimal() {
    assert_eq!(GovernanceScorer::board_size_score(9) as f64, 95.0);
}

#[test]
fn test_board_size_small() {
    assert_eq!(GovernanceScorer::board_size_score(2) as f64, 30.0);
}

#[test]
fn test_board_size_zero() {
    assert_eq!(GovernanceScorer::board_size_score(0) as f64, 0.0);
}

#[test]
fn test_board_size_oversized() {
    assert_eq!(GovernanceScorer::board_size_score(25) as f64, 40.0);
}

#[test]
fn test_audit_quality_big4() {
    let s = scorer();
    assert_eq!(s.audit_quality_score("Deloitte & Touche LLP") as f64, 90.0);
    assert_eq!(s.audit_quality_score("PwC Audit") as f64, 90.0);
    assert_eq!(s.audit_quality_score("KPMG International") as f64, 90.0);
}

#[test]
fn test_audit_quality_non_big4() {
    let s = scorer();
    assert_eq!(s.audit_quality_score("Local CPA Firm") as f64, 50.0);
}

#[test]
fn test_audit_quality_none() {
    let s = scorer();
    assert_eq!(s.audit_quality_score("none") as f64, 10.0);
}

#[test]
fn test_related_party_risk_present() {
    let s = scorer();
    let text = "The company engaged in a related-party transaction with a family member. \
                Insider transactions were disclosed in the annual report.";
    assert!(s.has_related_party_concerns(text));
}

#[test]
fn governance_test_default_scorer() {
    let s = GovernanceScorer::default();
    assert!(!s.big4_auditors().is_empty());
}

#[test]
fn board_size_bands() {
    let expected = [(1, 30), (3, 30), (4, 50), (5, 50), (6, 80), (8, 80), (12, 95), (13, 85), (15, 85), (16, 65), (20, 65), (21, 40)];
    for (n, score) in expected {
        assert_eq!(GovernanceScorer::board_size_score(n), score);
    }
}

#[test]
fn audit_quality_tiers() {
    let s = scorer();
    assert_eq!(s.audit_quality_score("Smith Accounting Group"), 60);
    assert_eq!(s.audit_quality_score(""), 10);
    assert_eq!(s.audit_quality_score("N/A"), 10);
    assert_eq!(s.audit_quality_score("NONE"), 10);
    assert_eq!(s.audit_quality_of_lowercase("grant thornton"), 90);
    assert_eq!(s.audit_quality_of_lowercase("Unknown Firm"), 50);
}

#[test]
fn keyword_counts() {
    let s = scorer();
    assert_eq!(s.anti_corruption_keyword_count(""), 0);
    assert_eq!(s.anti_corruption_keyword_count("Strong ANTI-CORRUPTION and Whistleblower policies"), 2);
    assert_eq!(s.disclosure_topic_count("no disclosures"), 0);
    assert_eq!(s.disclosure_topic_count("Full disclosure on climate, carbon, emissions, governance"), 4);
    assert_eq!(s.related_party_keyword_count("normal business operations"), 0);
    assert_eq!(s.anti_corruption_keywords().len(), 12);
    assert_eq!(s.disclosure_topics().len(), 16);
    assert_eq!(s.related_party_keywords().len(), 9);
}

#[test]
fn related_party_concern_needs_two_phrases() {
    let s = scorer();
    assert!(!s.has_related_party_concerns("no related party concerns here") || s.related_party_keyword_count("no related party concerns here") >= 2);
    assert_eq!(s.related_party_keyword_count("a related party deal"), 1);
    assert!(!s.has_related_party_concerns("a related party deal"));
    assert!(s.has_related_party_concerns("a Related Party deal with a Family Member"));
}
