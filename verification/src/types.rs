//! Core ESG vocabulary: categories, the rating scale, claim status and claims.
use vstd::prelude::*;

verus! {

broadcast use vstd::string::group_string_axioms;

/// ESG category classification.
#[derive(Debug, Clone, Copy, PartialEq, Eq, Hash, Structural)]
pub enum ESGCategory {
    Environmental,
    Social,
    Governance,
}

/// The display name of a category.
pub open spec fn category_label(c: ESGCategory) -> Seq<char> {
    match c {
        ESGCategory::Environmental => "Environmental"@,
        ESGCategory::Social => "Social"@,
        ESGCategory::Governance => "Governance"@,
    }
}

impl ESGCategory {
    /// The display name of this category.
    pub fn to_string(&self) -> (s: String)
        ensures
            s@ == category_label(*self),
    {
        match self {
            ESGCategory::Environmental => "Environmental".to_string(),
            ESGCategory::Social => "Social".to_string(),
            ESGCategory::Governance => "Governance".to_string(),
        }
    }
}

/// ESG rating scale (AAA = best, D = worst).
#[derive(Debug, Clone, Copy, PartialEq, Eq, PartialOrd, Ord, Hash, Structural)]
pub enum ESGRating {
    AAA,
    AA,
    A,
    BBB,
    BB,
    B,
    CCC,
    CC,
    C,
    D,
}

/// Position of a rating on the scale: 0 for AAA (best) up to 9 for D (worst).
pub open spec fn rating_rank(r: ESGRating) -> int {
    match r {
        ESGRating::AAA => 0,
        ESGRating::AA => 1,
        ESGRating::A => 2,
        ESGRating::BBB => 3,
        ESGRating::BB => 4,
        ESGRating::B => 5,
        ESGRating::CCC => 6,
        ESGRating::CC => 7,
        ESGRating::C => 8,
        ESGRating::D => 9,
    }
}

/// The representative score of a rating: the middle of its ten-point band.
pub open spec fn rating_score(r: ESGRating) -> int {
    95 - 10 * rating_rank(r)
}

/// The display name of a rating.
pub open spec fn rating_label(r: ESGRating) -> Seq<char> {
    match r {
        ESGRating::AAA => "AAA"@,
        ESGRating::AA => "AA"@,
        ESGRating::A => "A"@,
        ESGRating::BBB => "BBB"@,
        ESGRating::BB => "BB"@,
        ESGRating::B => "B"@,
        ESGRating::CCC => "CCC"@,
        ESGRating::CC => "CC"@,
        ESGRating::C => "C"@,
        ESGRating::D => "D"@,
    }
}

impl ESGRating {
    /// Convert rating to a numeric score (0-100).
    pub fn to_score(&self) -> (s: u32)
        ensures
            s == rating_score(*self),
    {
        match self {
            ESGRating::AAA => 95,
            ESGRating::AA => 85,
            ESGRating::A => 75,
            ESGRating::BBB => 65,
            ESGRating::BB => 55,
            ESGRating::B => 45,
            ESGRating::CCC => 35,
            ESGRating::CC => 25,
            ESGRating::C => 15,
            ESGRating::D => 5,
        }
    }

    /// Is this an investment-grade rating (BBB or better)?
    pub fn is_investment_grade(&self) -> (b: bool)
        ensures
            b == (rating_rank(*self) <= 3),
    {
        match self {
            ESGRating::AAA | ESGRating::AA | ESGRating::A | ESGRating::BBB => true,
            _ => false,
        }
    }

    /// The display name of this rating.
    pub fn to_string(&self) -> (s: String)
        ensures
            s@ == rating_label(*self),
    {
        match self {
            ESGRating::AAA => "AAA".to_string(),
            ESGRating::AA => "AA".to_string(),
            ESGRating::A => "A".to_string(),
            ESGRating::BBB => "BBB".to_string(),
            ESGRating::BB => "BB".to_string(),
            ESGRating::B => "B".to_string(),
            ESGRating::CCC => "CCC".to_string(),
            ESGRating::CC => "CC".to_string(),
            ESGRating::C => "C".to_string(),
            ESGRating::D => "D".to_string(),
        }
    }
}

/// Every rating from best to worst.
pub open spec fn all_ratings_spec() -> Seq<ESGRating> {
    seq![
        ESGRating::AAA,
        ESGRating::AA,
        ESGRating::A,
        ESGRating::BBB,
        ESGRating::BB,
        ESGRating::B,
        ESGRating::CCC,
        ESGRating::CC,
        ESGRating::C,
        ESGRating::D,
    ]
}

/// A better rating (lower rank) always carries a strictly higher score.
pub proof fn lemma_rating_score_strictly_decreasing(a: ESGRating, b: ESGRating)
    ensures
        rating_rank(a) < rating_rank(b) <==> rating_score(a) > rating_score(b),
        0 <= rating_score(a) <= 100,
{
}

/// A rating is investment grade exactly when its score is at least 60.
pub proof fn lemma_investment_grade_by_score(r: ESGRating)
    ensures
        (rating_rank(r) <= 3) <==> rating_score(r) >= 60,
{
}

/// Verification status for ESG claims.
#[derive(Debug, Clone, Copy, PartialEq, Eq, Hash, Structural)]
pub enum VerificationStatus {
    Verified,
    Pending,
    Failed,
    Disputed,
    Expired,
}

/// The display name of a status.
pub open spec fn status_label(s: VerificationStatus) -> Seq<char> {
    match s {
        VerificationStatus::Verified => "Verified"@,
        VerificationStatus::Pending => "Pending"@,
        VerificationStatus::Failed => "Failed"@,
        VerificationStatus::Disputed => "Disputed"@,
        VerificationStatus::Expired => "Expired"@,
    }
}

impl VerificationStatus {
    /// The display name of this status.
    pub fn to_string(&self) -> (s: String)
        ensures
            s@ == status_label(*self),
    {
        match self {
            VerificationStatus::Verified => "Verified".to_string(),
            VerificationStatus::Pending => "Pending".to_string(),
            VerificationStatus::Failed => "Failed".to_string(),
            VerificationStatus::Disputed => "Disputed".to_string(),
            VerificationStatus::Expired => "Expired".to_string(),
        }
    }
}

/// An ESG-related claim requiring verification.
#[derive(Debug, Clone)]
pub struct VerificationClaim {
    pub claim_id: String,
    pub entity: String,
    pub category: ESGCategory,
    pub claim: String,
    pub evidence_urls: Vec<String>,
    pub status: VerificationStatus,
    pub verifier: String,
    pub timestamp: String,
}

impl VerificationClaim {
    /// A fresh, pending claim with no evidence, verifier or timestamp.
    pub fn new(claim_id: &str, entity: &str, category: ESGCategory, claim: &str) -> (c: Self)
        ensures
            c.claim_id@ == claim_id@,
            c.entity@ == entity@,
            c.category == category,
            c.claim@ == claim@,
            c.evidence_urls@.len() == 0,
            c.status == VerificationStatus::Pending,
            c.verifier@.len() == 0,
            c.timestamp@.len() == 0,
    {
        VerificationClaim {
            claim_id: claim_id.to_string(),
            entity: entity.to_string(),
            category,
            claim: claim.to_string(),
            evidence_urls: Vec::new(),
            status: VerificationStatus::Pending,
            verifier: String::new(),
            timestamp: String::new(),
        }
    }
}

} // verus!
