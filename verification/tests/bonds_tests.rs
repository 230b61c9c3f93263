use greenverify::bonds::{GreenBondAnalyzer, PermanenceRiskLevel};
use greenverify::types::VerificationStatus;

fn analyzer() -> GreenBondAnalyzer {
    GreenBondAnalyzer::new()
}

#[test]
fn test_is_green_use_of_proceeds() {
    let a = analyzer();
    assert!(a.is_green_use_of_proceeds("Funding for renewable energy and solar power"));
    assert!(a.is_green_use_of_proceeds("sustainable forestry project"));
    assert!(!a.is_green_use_of_proceeds("General corporate spending"));
}

#[test]
fn test_vintage_year_score() {
    let a = analyzer();
    assert!(a.vintage_year_score(2024) > a.vintage_year_score(2015));
    assert!(a.vintage_year_score(2015) > a.vintage_year_score(2005));
}

#[test]
fn test_standard_score() {
    let a = analyzer();
    assert!(a.standard_score("Gold Standard") > a.standard_score("VCS"));
    assert!(a.standard_score("VCS") > a.standard_score("Unknown"));
}

#[test]
fn test_verification_score() {
    let a = analyzer();
    assert_eq!(a.verification_score(VerificationStatus::Verified) as f64, 95.0);
    assert_eq!(a.verification_score(VerificationStatus::Pending) as f64, 50.0);
    assert_eq!(a.verification_score(VerificationStatus::Failed) as f64, 5.0);
    assert_eq!(a.verification_score(VerificationStatus::Expired) as f64, 30.0);
}

#[test]
fn test_verify_additionality_high() {
    let a = analyzer();
    let result = a.verify_additionality(
        "renewable energy solar",
        "Sub-Saharan Africa",
        "Gold Standard",
        true,
        true,
    );
    assert!(result.likely_additional);
    assert!(result.score as f64 > 50.0);
}

#[test]
fn test_verify_additionality_low() {
    let a = analyzer();
    let result = a.verify_additionality(
        "generic project",
        "United States",
        "Unknown",
        false,
        false,
    );
    // May or may not be additional depending on scoring
    assert!((result.score as f64) < 60.0);
}

#[test]
fn test_assess_permanence_risk_nature() {
    let a = analyzer();
    let result = a.assess_permanence_risk("nature-based reforestation", "VCS", false, false);
    assert_eq!(result.risk_level, PermanenceRiskLevel::High);
    assert!(result.mitigation_factors.is_empty());
}

#[test]
fn test_assess_permanence_risk_renewable() {
    let a = analyzer();
    let result = a.assess_permanence_risk("renewable energy", "VCS", false, false);
    assert!(matches!(result.risk_level, PermanenceRiskLevel::Low | PermanenceRiskLevel::VeryLow));
}

#[test]
fn test_assess_permanence_risk_mitigated() {
    let a = analyzer();
    let result = a.assess_permanence_risk("reforestation", "Gold Standard", true, true);
    assert!(result.mitigation_factors.len() >= 2);
    assert!((result.score as f64) < 60.0); // mitigations reduce risk
}

#[test]
fn test_default_analyzer() {
    let a = GreenBondAnalyzer::default();
    assert!(!a.green_categories().is_empty());
}

#[test]
fn additionality_exact_values_and_factors() {
    let a = analyzer();
    // 25 (renewable) + 25 (africa) + 95/5 (gold standard) + 15 + 15 = 99
    let high = a.verify_additionality("Renewable Energy Solar", "Sub-Saharan Africa", "Gold Standard", true, true);
    assert_eq!(high.score, 99);
    assert_eq!(
        high.factors,
        vec![
            "Region additionality score: 25".to_string(),
            "Baseline scenario documented".to_string(),
            "Regulatory surplus demonstrated".to_string(),
        ]
    );
    // 15 + 10 + 40/5 = 33
    let low = a.verify_additionality("generic project", "United States", "Unknown", false, false);
    assert_eq!(low.score, 33);
    assert!(!low.likely_additional);
    assert_eq!(
        low.factors,
        vec![
            "Region additionality score: 10".to_string(),
            "No baseline scenario documented".to_string(),
            "May be required by regulation".to_string(),
        ]
    );
    // 22 (methane) + 18 (middle east) + 80/5 (vcs) = 56
    let mid = a.verify_additionality("Methane capture", "Middle East", "VCS", false, false);
    assert_eq!(mid.score, 56);
    assert!(mid.likely_additional);
    assert_eq!(mid.factors[0], "Region additionality score: 18");
}

#[test]
fn additionality_from_lowercase_inputs() {
    let a = analyzer();
    let r = a.additionality_of_lowercase("reforestation", "latin america", "", true, false);
    // 20 + 25 + 10/5 + 15 = 62
    assert_eq!(r.score, 62);
    assert!(r.likely_additional);
}

#[test]
fn permanence_exact_values() {
    let a = analyzer();
    // 60 - 5 = 55 -> High
    let r = a.assess_permanence_risk("Nature-based reforestation", "VCS", false, false);
    assert_eq!(r.score, 55);
    // 60 - 10 - 15 - 10 = 25 -> Low
    let m = a.assess_permanence_risk("reforestation", "Gold Standard", true, true);
    assert_eq!(m.score, 25);
    assert_eq!(m.risk_level, PermanenceRiskLevel::Low);
    assert_eq!(
        m.mitigation_factors,
        vec!["Buffer pool in place".to_string(), "Insurance coverage available".to_string()]
    );
    // 20 - 10 - 15 - 10 < 0 -> clamped to 0
    let z = a.assess_permanence_risk("renewable energy", "Gold Standard", true, true);
    assert_eq!(z.score, 0);
    assert_eq!(z.risk_level, PermanenceRiskLevel::VeryLow);
    // 50 (soil) -> Medium; 40 (other) -> Medium; 30 (industrial) -> Low
    assert_eq!(a.assess_permanence_risk("Soil carbon", "other", false, false).score, 50);
    assert_eq!(a.assess_permanence_risk("cookstoves", "other", false, false).score, 40);
    let ind = GreenBondAnalyzer::permanence_risk_of_lowercase("industrial gas", "", false, true);
    assert_eq!(ind.score, 20);
    assert_eq!(ind.mitigation_factors, vec!["Insurance coverage available".to_string()]);
}

#[test]
fn mitigation_never_raises_risk() {
    let a = analyzer();
    for t in ["forest", "soil", "renewable", "methane", "other"] {
        for s in ["Gold Standard", "VCS", "none"] {
            let bare = a.assess_permanence_risk(t, s, false, false).score;
            assert!(a.assess_permanence_risk(t, s, true, false).score <= bare);
            assert!(a.assess_permanence_risk(t, s, false, true).score <= bare);
        }
    }
}

#[test]
fn standard_tiers_exact() {
    let a = analyzer();
    assert_eq!(a.standard_score("Gold Standard"), 95);
    assert_eq!(a.standard_score("VCS"), 80);
    assert_eq!(a.standard_score("Puro.earth"), 65);
    assert_eq!(a.standard_score("ACM0013"), 55);
    assert_eq!(a.standard_score(""), 10);
    assert_eq!(a.standard_score("Unknown"), 40);
    assert_eq!(a.standard_score_of_lowercase("vcs"), 80);
    assert_eq!(a.standard_score_of_lowercase("VCS"), 40);
}

#[test]
fn vintage_tiers_exact() {
    let a = analyzer();
    assert_eq!(a.vintage_year_score(2023), 95);
    assert_eq!(a.vintage_year_score(2020), 85);
    assert_eq!(a.vintage_year_score(2017), 70);
    assert_eq!(a.vintage_year_score(2014), 55);
    assert_eq!(a.vintage_year_score(2010), 40);
    assert_eq!(a.vintage_year_score(2009), 20);
    assert_eq!(a.verification_score(VerificationStatus::Disputed), 20);
}

#[test]
fn green_category_matching_counts() {
    let a = analyzer();
    let projects = vec!["Solar Farm Alpha".to_string(), "Wind Farm Beta".to_string(), "Office".to_string()];
    // "renewable energy" and "energy efficiency" in the proceeds, two matching projects
    let n = a.green_category_matches("Renewable energy and energy efficiency projects", &projects);
    assert_eq!(n, 4);
    assert_eq!(a.green_category_matches("General corporate purposes", &vec![]), 0);
    assert!(a.is_green_use_of_proceeds("WIND turbines"));
    assert_eq!(a.green_categories().len(), 13);
}

#[test]
fn green_use_always_has_a_category_match() {
    let a = analyzer();
    for text in ["Wind farms", "Green Building retrofit", "Biodiversity corridors", "Buybacks"] {
        let n = a.green_category_matches(text, &vec![]);
        assert_eq!(a.is_green_use_of_proceeds(text), n > 0);
    }
}
