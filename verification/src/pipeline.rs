//! The ESG analysis pipeline: the scoring engines it orchestrates and the rating scale it reports on.
use vstd::prelude::*;
use crate::bonds::{green_categories_spec, recognized_standards_spec, GreenBondAnalyzer};
use crate::environmental::{environmental_benchmarks_spec, EnvironmentalScorer};
use crate::governance::{
    anti_corruption_keywords_spec, big4_auditors_spec, disclosure_topics_spec,
    related_party_keywords_spec, GovernanceScorer,
};
use crate::social::{social_benchmarks_spec, SocialScorer};
use crate::types::{all_ratings_spec, ESGRating};
use crate::verification::VerificationEngine;

verus! {

/// Full ESG analysis pipeline orchestrating all scoring modules.
#[derive(Debug)]
pub struct ESGPipeline {
    environmental_scorer: EnvironmentalScorer,
    social_scorer: SocialScorer,
    governance_scorer: GovernanceScorer,
    verification_engine: VerificationEngine,
    bond_analyzer: GreenBondAnalyzer,
}

impl ESGPipeline {
    /// The pipeline's engines all hold their built-in tables and keyword lists.
    #[verifier::type_invariant]
    pub closed spec fn engines_fresh(self) -> bool {
        &&& self.environmental_scorer.benchmark_table() == environmental_benchmarks_spec()
        &&& self.social_scorer.benchmark_table() == social_benchmarks_spec()
        &&& self.governance_scorer.keyword_lists() == (
            big4_auditors_spec(),
            anti_corruption_keywords_spec(),
            disclosure_topics_spec(),
            related_party_keywords_spec(),
        )
        &&& self.bond_analyzer.category_list() == green_categories_spec()
        &&& self.bond_analyzer.standard_list() == recognized_standards_spec()
    }

    /// A pipeline with freshly built engines.
    pub fn new() -> (p: Self)
        ensures
            p.engines_fresh(),
    {
        ESGPipeline {
            environmental_scorer: EnvironmentalScorer::new(),
            social_scorer: SocialScorer::new(),
            governance_scorer: GovernanceScorer::new(),
            verification_engine: VerificationEngine::new(),
            bond_analyzer: GreenBondAnalyzer::new(),
        }
    }

    /// Get all possible ESG ratings from best to worst.
    pub fn all_ratings() -> (v: Vec<ESGRating>)
        ensures
            v@ == all_ratings_spec(),
    {
        let mut v: Vec<ESGRating> = Vec::new();
        v.push(ESGRating::AAA);
        v.push(ESGRating::AA);
        v.push(ESGRating::A);
        v.push(ESGRating::BBB);
        v.push(ESGRating::BB);
        v.push(ESGRating::B);
        v.push(ESGRating::CCC);
        v.push(ESGRating::CC);
        v.push(ESGRating::C);
        v.push(ESGRating::D);
        assert(v@ =~= all_ratings_spec());
        v
    }

    /// The environmental scoring engine.
    pub fn environmental_scorer(&self) -> (s: &EnvironmentalScorer)
        ensures
            s.benchmark_table() == environmental_benchmarks_spec(),
    {
        proof {
            use_type_invariant(self);
        }
        &self.environmental_scorer
    }

    /// The social scoring engine.
    pub fn social_scorer(&self) -> (s: &SocialScorer)
        ensures
            s.benchmark_table() == social_benchmarks_spec(),
    {
        proof {
            use_type_invariant(self);
        }
        &self.social_scorer
    }

    /// The governance scoring engine.
    pub fn governance_scorer(&self) -> (s: &GovernanceScorer)
        ensures
            s.keyword_lists() == (
                big4_auditors_spec(),
                anti_corruption_keywords_spec(),
                disclosure_topics_spec(),
                related_party_keywords_spec(),
            ),
    {
        proof {
            use_type_invariant(self);
        }
        &self.governance_scorer
    }

    /// The claim verification engine.
    pub fn verification_engine(&self) -> (e: &VerificationEngine)
        ensures
            *e == VerificationEngine,
    {
        &self.verification_engine
    }

    /// The green bond analysis engine.
    pub fn bond_analyzer(&self) -> (a: &GreenBondAnalyzer)
        ensures
            a.category_list() == green_categories_spec(),
            a.standard_list() == recognized_standards_spec(),
    {
        proof {
            use_type_invariant(self);
        }
        &self.bond_analyzer
    }
}

impl Clone for ESGPipeline {
    /// A copy whose engines hold the same tables and lists.
    fn clone(&self) -> (p: Self)
        ensures
            p.engines_fresh(),
    {
        proof {
            use_type_invariant(self);
        }
        ESGPipeline {
            environmental_scorer: self.environmental_scorer.clone(),
            social_scorer: self.social_scorer.clone(),
            governance_scorer: self.governance_scorer.clone(),
            verification_engine: VerificationEngine::new(),
            bond_analyzer: self.bond_analyzer.clone(),
        }
    }
}

impl Default for ESGPipeline {
    /// Same as `ESGPipeline::new`.
    fn default() -> (p: Self)
        ensures
            p.engines_fresh(),
    {
        ESGPipeline::new()
    }
}

} // verus!
