use greenverify::verification::{count_distinct_domains, url_domain, VerificationEngine};

#[test]
fn test_parse_claim_intensity_strong() {
    let ci = VerificationEngine::parse_claim_intensity("We are carbon neutral and net zero");
    assert!(ci.claimed_level as f64 >= 50.0);
    assert!(ci.keywords_found.contains(&"carbon neutral".into()));
    assert!(ci.keywords_found.contains(&"net zero".into()));
}

#[test]
fn test_parse_claim_intensity_moderate() {
    let ci = VerificationEngine::parse_claim_intensity("We are reducing emissions and using renewable energy");
    assert!(ci.claimed_level as f64 >= 20.0);
}

#[test]
fn test_parse_claim_intensity_weak() {
    let ci = VerificationEngine::parse_claim_intensity("We are committed to sustainability");
    assert!(ci.claimed_level as f64 >= 5.0);
    assert!(ci.keywords_found.contains(&"committed to".into()));
}

#[test]
fn test_parse_claim_intensity_none() {
    let ci = VerificationEngine::parse_claim_intensity("We sell products");
    assert_eq!(ci.claimed_level as f64, 0.0);
    assert!(ci.keywords_found.is_empty());
}

#[test]
fn test_default_engine() {
    let _engine = VerificationEngine::default();
}

#[test]
fn claim_intensity_exact() {
    let ci = VerificationEngine::parse_claim_intensity("We are Carbon Neutral and NET ZERO");
    assert_eq!(ci.claimed_level, 50);
    assert_eq!(ci.keywords_found, vec!["carbon neutral".to_string(), "net zero".to_string()]);
    // sustainable (15) + committed to (5); "sustainability" does not contain "sustainable"
    let w = VerificationEngine::parse_lowercase_claim_intensity("committed to sustainable growth");
    assert_eq!(w.claimed_level, 20);
    assert_eq!(w.keywords_found, vec!["sustainable".to_string(), "committed to".to_string()]);
}

#[test]
fn claim_intensity_caps_at_hundred() {
    let text = "zero emissions, climate positive, 100% renewable, fully sustainable, carbon neutral";
    let ci = VerificationEngine::parse_claim_intensity(text);
    assert_eq!(ci.claimed_level, 100);
    assert_eq!(ci.keywords_found.len(), 7);
}

#[test]
fn domains_of_urls() {
    assert_eq!(url_domain("https://source1.com/report"), "source1.com");
    assert_eq!(url_domain("http://b.org"), "b.org");
    assert_eq!(url_domain("https://https://x.net/a/b"), "x.net");
    assert_eq!(url_domain("ftp://host/file"), "ftp:");
    assert_eq!(url_domain(""), "");
}

#[test]
fn test_distinct_domain_counts() {
    let same = vec!["https://same.com/a".to_string(), "https://same.com/b".to_string()];
    assert_eq!(count_distinct_domains(&same), 1);
    let diff = vec!["https://a.com/1".to_string(), "https://b.com/2".to_string(), "http://a.com/3".to_string()];
    assert_eq!(count_distinct_domains(&diff), 2);
    assert_eq!(count_distinct_domains(&vec![]), 0);
}

#[test]
fn environmental_topics_and_aspiration() {
    assert!(VerificationEngine::is_environmental_claim("Cutting CARBON by half"));
    assert!(VerificationEngine::is_environmental_claim("renewable power"));
    assert!(!VerificationEngine::is_environmental_claim("Fair wages for all"));
    assert!(!VerificationEngine::mentions_environmental_topic("Climate"));
    let weak = VerificationEngine::parse_claim_intensity("We plan to go green");
    assert!(weak.uses_aspirational_language());
    assert_eq!(weak.claimed_level, 15);
    let strong = VerificationEngine::parse_claim_intensity("We are net zero");
    assert!(!strong.uses_aspirational_language());
}

#[test]
fn found_keywords_occur_in_the_claim() {
    let text = "Our low carbon, eco-friendly plan to reach net zero";
    let ci = VerificationEngine::parse_claim_intensity(text);
    let lower = text.to_lowercase();
    for k in &ci.keywords_found {
        assert!(lower.contains(k.as_str()));
    }
    assert_eq!(ci.claimed_level, 25 + 15 + 15 + 5);
}
