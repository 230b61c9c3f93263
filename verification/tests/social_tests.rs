use greenverify::social::{SocialBenchmark, SocialScorer};

#[test]
fn test_data_privacy_score_full() {
    let score = SocialScorer::data_privacy_score(true, true, 0, true, true);
    assert_eq!(score as f64, 75.0);
}

#[test]
fn test_data_privacy_score_with_breaches() {
    let score = SocialScorer::data_privacy_score(true, true, 3, true, true);
    // 75 - 30 = 45
    assert_eq!(score as f64, 45.0);
}

#[test]
fn test_data_privacy_score_minimal() {
    let score = SocialScorer::data_privacy_score(false, false, 0, false, false);
    assert_eq!(score as f64, 0.0);
}

#[test]
fn test_human_rights_score_full() {
    let score = SocialScorer::human_rights_score(true, true, true, 0);
    assert_eq!(score as f64, 80.0);
}

#[test]
fn test_human_rights_score_with_incidents() {
    let score = SocialScorer::human_rights_score(true, true, true, 5);
    // 80 - 30 = 50
    assert_eq!(score as f64, 50.0);
}

#[test]
fn social_test_default_scorer() {
    let scorer = SocialScorer::default();
    assert!(scorer.benchmark("technology").is_some());
}

#[test]
fn privacy_penalty_caps_and_floors() {
    assert_eq!(SocialScorer::data_privacy_score(true, true, 10, true, true), 35);
    assert_eq!(SocialScorer::data_privacy_score(true, false, 2, false, false), 0);
    assert_eq!(SocialScorer::data_privacy_score(false, true, u32::MAX, true, true), 20);
    assert_eq!(SocialScorer::human_rights_score(true, false, false, 1), 20);
    assert_eq!(SocialScorer::human_rights_score(false, false, false, 0), 0);
    for b in 0..8 {
        assert!(SocialScorer::data_privacy_score(true, true, b + 1, true, true)
            <= SocialScorer::data_privacy_score(true, true, b, true, true));
        assert!(SocialScorer::human_rights_score(true, true, true, b + 1)
            <= SocialScorer::human_rights_score(true, true, true, b));
    }
}

#[test]
fn social_benchmark_lookup() {
    let s = SocialScorer::new();
    assert_eq!(
        s.benchmark("finance"),
        Some(SocialBenchmark { avg_satisfaction: 70, avg_diversity: 55, avg_turnover: 15, avg_gender_pay_gap: 20 })
    );
    assert_eq!(s.benchmark("Finance"), None);
    assert_eq!(s.get_benchmark("technology").avg_satisfaction, 75);
    assert_eq!(
        s.get_benchmark("unknown"),
        SocialBenchmark { avg_satisfaction: 70, avg_diversity: 50, avg_turnover: 15, avg_gender_pay_gap: 17 }
    );
    assert_eq!(s.get_benchmark("healthcare").avg_gender_pay_gap, 12);
    assert_eq!(s.clone().get_benchmark("manufacturing").avg_diversity, 40);
}
