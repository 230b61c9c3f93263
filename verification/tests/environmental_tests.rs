use greenverify::environmental::{EnvironmentalBenchmark, EnvironmentalScorer};

#[test]
fn test_sbt_alignment_no_target() {
    assert_eq!(EnvironmentalScorer::sbt_alignment_score(false, 2050, true) as f64, 20.0);
}

#[test]
fn test_sbt_alignment_on_track() {
    let score = EnvironmentalScorer::sbt_alignment_score(true, 2030, true);
    // target = 40, trajectory = 40 -> 80
    assert_eq!(score as f64, 80.0);
}

#[test]
fn test_sbt_alignment_off_track() {
    let score = EnvironmentalScorer::sbt_alignment_score(true, 2050, false);
    // target = 20, trajectory = 15 -> 35
    assert_eq!(score as f64, 35.0);
}

#[test]
fn environmental_test_default_scorer() {
    let scorer = EnvironmentalScorer::default();
    let _ = scorer.benchmark("technology");
}

#[test]
fn sbt_alignment_bands() {
    assert_eq!(EnvironmentalScorer::sbt_alignment_score(true, 2040, true), 70);
    assert_eq!(EnvironmentalScorer::sbt_alignment_score(true, 2041, false), 35);
    assert_eq!(EnvironmentalScorer::sbt_alignment_score(true, 2060, false), 25);
    assert!(EnvironmentalScorer::sbt_alignment_score(true, 2100, false)
        > EnvironmentalScorer::sbt_alignment_score(false, 2100, false));
}

#[test]
fn environmental_benchmark_lookup() {
    let s = EnvironmentalScorer::new();
    assert_eq!(
        s.benchmark("energy"),
        Some(EnvironmentalBenchmark {
            avg_carbon_per_revenue: 500,
            avg_renewable_pct: 20,
            avg_water_per_revenue: 500,
            avg_waste_per_revenue: 20,
        })
    );
    assert_eq!(s.benchmark("unknown"), None);
    assert_eq!(s.benchmark_or_default("technology").avg_carbon_per_revenue, 50);
    assert_eq!(s.benchmark_or_default("finance").avg_waste_per_revenue, 2);
    assert_eq!(
        s.benchmark_or_default("unknown"),
        EnvironmentalBenchmark {
            avg_carbon_per_revenue: 100,
            avg_renewable_pct: 30,
            avg_water_per_revenue: 200,
            avg_waste_per_revenue: 10,
        }
    );
    assert_eq!(s.clone().benchmark_or_default("manufacturing").avg_renewable_pct, 15);
}
