use greenverify::types::{ESGCategory, ESGRating, VerificationClaim, VerificationStatus};

#[test]
fn test_esg_category_display() {
    assert_eq!(ESGCategory::Environmental.to_string(), "Environmental");
    assert_eq!(ESGCategory::Social.to_string(), "Social");
    assert_eq!(ESGCategory::Governance.to_string(), "Governance");
}

#[test]
fn test_esg_rating_to_score() {
    assert!((ESGRating::AAA.to_score() as f64 - 95.0).abs() < 1e-9);
    assert!((ESGRating::BBB.to_score() as f64 - 65.0).abs() < 1e-9);
    assert!((ESGRating::D.to_score() as f64 - 5.0).abs() < 1e-9);
}

#[test]
fn test_esg_rating_investment_grade() {
    assert!(ESGRating::AAA.is_investment_grade());
    assert!(ESGRating::AA.is_investment_grade());
    assert!(ESGRating::A.is_investment_grade());
    assert!(ESGRating::BBB.is_investment_grade());
    assert!(!ESGRating::BB.is_investment_grade());
    assert!(!ESGRating::D.is_investment_grade());
}

#[test]
fn test_esg_rating_display() {
    assert_eq!(ESGRating::AAA.to_string(), "AAA");
    assert_eq!(ESGRating::D.to_string(), "D");
}

#[test]
fn test_esg_rating_ord() {
    assert!(ESGRating::AAA < ESGRating::A);
    assert!(ESGRating::BB < ESGRating::B);
}

#[test]
fn test_verification_claim_new() {
    let claim = VerificationClaim::new(
        "c1", "Acme Corp", ESGCategory::Environmental, "Carbon neutral by 2030"
    );
    assert_eq!(claim.status, VerificationStatus::Pending);
    assert!(claim.evidence_urls.is_empty());
}

#[test]
fn test_verification_status_display() {
    assert_eq!(VerificationStatus::Verified.to_string(), "Verified");
    assert_eq!(VerificationStatus::Failed.to_string(), "Failed");
}

#[test]
fn rating_scores_fall_by_ten_per_step() {
    let all = [
        ESGRating::AAA, ESGRating::AA, ESGRating::A, ESGRating::BBB, ESGRating::BB,
        ESGRating::B, ESGRating::CCC, ESGRating::CC, ESGRating::C, ESGRating::D,
    ];
    for (i, r) in all.iter().enumerate() {
        assert_eq!(r.to_score(), 95 - 10 * i as u32);
        assert_eq!(r.is_investment_grade(), r.to_score() >= 60);
    }
    assert_eq!(ESGRating::CCC.to_string(), "CCC");
    assert_eq!(VerificationStatus::Disputed.to_string(), "Disputed");
    assert_eq!(VerificationStatus::Expired.to_string(), "Expired");
    assert_eq!(VerificationStatus::Pending.to_string(), "Pending");
}

#[test]
fn claim_new_keeps_its_fields() {
    let claim = VerificationClaim::new("id-7", "Beta", ESGCategory::Social, "Fair pay");
    assert_eq!(claim.claim_id, "id-7");
    assert_eq!(claim.entity, "Beta");
    assert_eq!(claim.category, ESGCategory::Social);
    assert_eq!(claim.claim, "Fair pay");
    assert!(claim.verifier.is_empty());
    assert!(claim.timestamp.is_empty());
}
