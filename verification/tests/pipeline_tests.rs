use greenverify::pipeline::ESGPipeline;
use greenverify::types::ESGRating;

#[test]
fn test_all_ratings() {
    let ratings = ESGPipeline::all_ratings();
    assert_eq!(ratings.len(), 10);
    assert_eq!(ratings[0], ESGRating::AAA);
    assert_eq!(ratings[9], ESGRating::D);
}

#[test]
fn pipeline_engines_are_usable() {
    let p = ESGPipeline::default();
    assert!(p.governance_scorer().has_related_party_concerns("self-dealing by a controlling shareholder"));
    assert!(p.bond_analyzer().is_green_use_of_proceeds("Clean Transportation"));
    assert_eq!(p.social_scorer().get_benchmark("finance").avg_satisfaction, 70);
    assert_eq!(p.environmental_scorer().benchmark_or_default("energy").avg_renewable_pct, 20);
    let _ = p.verification_engine();
    let q = p.clone();
    assert_eq!(q.governance_scorer().audit_quality_score("EY"), 90);
}
