//! Green bond and carbon credit analysis: use-of-proceeds matching, credit component
//! scores, additionality and permanence risk.
use vstd::prelude::*;
use crate::text::{
    any_present, contains_any, contains_str, count_contained, count_present, has_substring,
    lemma_any_present_iff_count_positive, lowercase, to_lower, to_strings,
};
use crate::types::VerificationStatus;

verus! {

broadcast use vstd::string::group_string_axioms;

/// Green bond and carbon credit analysis engine.
#[derive(Debug)]
pub struct GreenBondAnalyzer {
    green_categories: Vec<String>,
    recognized_standards: Vec<String>,
}

/// Significance level of observed greenium.
#[derive(Debug, Clone, Copy, PartialEq, Eq, Structural)]
pub enum GreeniumSignificance {
    NoGreenium,
    Low,
    Moderate,
    High,
}

/// Carbon credit quality rating.
#[derive(Debug, Clone, Copy, PartialEq, Eq, Structural)]
pub enum CarbonCreditRating {
    Premium,
    High,
    Standard,
    Low,
    Poor,
}

/// Permanence risk level.
#[derive(Debug, Clone, Copy, PartialEq, Eq, Structural)]
pub enum PermanenceRiskLevel {
    VeryLow,
    Low,
    Medium,
    High,
    VeryHigh,
}

/// The use-of-proceeds categories that count as green.
pub open spec fn green_categories_spec() -> Seq<Seq<char>> {
    seq![
        "renewable energy"@,
        "solar"@,
        "wind"@,
        "energy efficiency"@,
        "clean transportation"@,
        "green building"@,
        "water management"@,
        "waste management"@,
        "sustainable agriculture"@,
        "biodiversity"@,
        "pollution prevention"@,
        "climate adaptation"@,
        "sustainable forestry"@,
    ]
}

/// The carbon credit standards that are recognised at all.
pub open spec fn recognized_standards_spec() -> Seq<Seq<char>> {
    seq![
        "vcs"@,
        "gold standard"@,
        "gs"@,
        "acm0013"@,
        "cdm"@,
        "car"@,
        "arb"@,
        "aac"@,
        "puro.earth"@,
        "climate action reserve"@,
        "american carbon registry"@,
        "art"@,
    ]
}

/// Text that names at least one green use-of-proceeds category.
pub open spec fn names_green_category(lower: Seq<char>) -> bool {
    any_present(lower, green_categories_spec())
}

/// How many of `projects` name a green category once lowercased.
pub open spec fn green_projects_matching(projects: Seq<Seq<char>>) -> nat
    decreases projects.len(),
{
    if projects.len() == 0 {
        0
    } else {
        green_projects_matching(projects.drop_last()) + if names_green_category(
            lowercase(projects.last()),
        ) {
            1nat
        } else {
            0nat
        }
    }
}

/// Score of a credit's vintage year: recent credits are better.
pub open spec fn vintage_points(year: u32) -> int {
    if year >= 2023 {
        95
    } else if year >= 2020 {
        85
    } else if year >= 2017 {
        70
    } else if year >= 2014 {
        55
    } else if year >= 2010 {
        40
    } else {
        20
    }
}

/// Score of a (lowercased) carbon credit standard name, by tier.
pub open spec fn standard_points(l: Seq<char>) -> int {
    if has_substring(l, "gold standard"@) || has_substring(l, "gs"@) {
        95
    } else if has_substring(l, "vcs"@) || has_substring(l, "cdm"@) || has_substring(
        l,
        "climate action reserve"@,
    ) || has_substring(l, "car"@) {
        80
    } else if has_substring(l, "arb"@) || has_substring(l, "aac"@) || has_substring(l, "puro"@)
        || has_substring(l, "art"@) {
        65
    } else if any_present(l, recognized_standards_spec()) {
        55
    } else if l.len() == 0 {
        10
    } else {
        40
    }
}

/// Score of a verification status.
pub open spec fn status_points(s: VerificationStatus) -> int {
    match s {
        VerificationStatus::Verified => 95,
        VerificationStatus::Pending => 50,
        VerificationStatus::Disputed => 20,
        VerificationStatus::Failed => 5,
        VerificationStatus::Expired => 30,
    }
}

/// Additionality points of a (lowercased) project type.
pub open spec fn project_type_points(l: Seq<char>) -> int {
    if has_substring(l, "renewable"@) || has_substring(l, "solar"@) || has_substring(l, "wind"@) {
        25
    } else if has_substring(l, "reforestation"@) || has_substring(l, "forestry"@) {
        20
    } else if has_substring(l, "efficiency"@) || has_substring(l, "methane"@) {
        22
    } else {
        15
    }
}

/// Additionality points of a (lowercased) region: developing regions score highest.
pub open spec fn region_points(l: Seq<char>) -> int {
    if has_substring(l, "africa"@) || has_substring(l, "southeast asia"@) || has_substring(
        l,
        "south asia"@,
    ) || has_substring(l, "latin america"@) || has_substring(l, "developing"@) {
        25
    } else if has_substring(l, "eastern europe"@) || has_substring(l, "middle east"@) {
        18
    } else {
        10
    }
}

/// The additionality score of lowercased inputs (0-100).
pub open spec fn additionality_points(
    project_lower: Seq<char>,
    region_lower: Seq<char>,
    standard_lower: Seq<char>,
    baseline_documented: bool,
    regulatory_surplus: bool,
) -> int {
    let raw = project_type_points(project_lower) + region_points(region_lower) + standard_points(
        standard_lower,
    ) / 5 + (if baseline_documented {
        15int
    } else {
        0int
    }) + (if regulatory_surplus {
        15int
    } else {
        0int
    });
    if raw < 100 {
        raw
    } else {
        100
    }
}

/// The factor line that reports a region's points.
pub open spec fn region_factor(points: int) -> Seq<char> {
    if points == 25 {
        "Region additionality score: 25"@
    } else if points == 18 {
        "Region additionality score: 18"@
    } else {
        "Region additionality score: 10"@
    }
}

/// The factors reported by an additionality check, in order.
pub open spec fn additionality_factors(
    region_lower: Seq<char>,
    baseline_documented: bool,
    regulatory_surplus: bool,
) -> Seq<Seq<char>> {
    seq![
        region_factor(region_points(region_lower)),
        if baseline_documented {
            "Baseline scenario documented"@
        } else {
            "No baseline scenario documented"@
        },
        if regulatory_surplus {
            "Regulatory surplus demonstrated"@
        } else {
            "May be required by regulation"@
        },
    ]
}

/// Inherent permanence risk of a (lowercased) credit type.
pub open spec fn credit_type_risk(l: Seq<char>) -> int {
    if has_substring(l, "nature"@) || has_substring(l, "forest"@) || has_substring(
        l,
        "reforestation"@,
    ) || has_substring(l, "afforestation"@) {
        60
    } else if has_substring(l, "soil"@) || has_substring(l, "agriculture"@) {
        50
    } else if has_substring(l, "renewable"@) || has_substring(l, "energy"@) {
        20
    } else if has_substring(l, "methane"@) || has_substring(l, "industrial"@) {
        30
    } else {
        40
    }
}

/// Risk taken off by a (lowercased) standard: Gold Standard 10, VCS 5.
pub open spec fn standard_risk_credit(l: Seq<char>) -> int {
    if has_substring(l, "gold standard"@) {
        10
    } else if has_substring(l, "vcs"@) {
        5
    } else {
        0
    }
}

/// Permanence risk of lowercased inputs, clamped to 0-100 (higher = riskier).
pub open spec fn permanence_points(
    type_lower: Seq<char>,
    standard_lower: Seq<char>,
    has_buffer_pool: bool,
    has_insurance: bool,
) -> int {
    let raw = credit_type_risk(type_lower) - standard_risk_credit(standard_lower) - (if has_buffer_pool {
        15int
    } else {
        0int
    }) - (if has_insurance {
        10int
    } else {
        0int
    });
    if raw < 0 {
        0
    } else if raw > 100 {
        100
    } else {
        raw
    }
}

/// The risk level of a permanence score.
pub open spec fn permanence_level(score: int) -> PermanenceRiskLevel {
    if score >= 70 {
        PermanenceRiskLevel::VeryHigh
    } else if score >= 55 {
        PermanenceRiskLevel::High
    } else if score >= 40 {
        PermanenceRiskLevel::Medium
    } else if score >= 25 {
        PermanenceRiskLevel::Low
    } else {
        PermanenceRiskLevel::VeryLow
    }
}

/// The mitigation factors reported for a permanence assessment, in order.
pub open spec fn mitigation_factors_spec(has_buffer_pool: bool, has_insurance: bool) -> Seq<Seq<char>> {
    (if has_buffer_pool {
        seq!["Buffer pool in place"@]
    } else {
        Seq::<Seq<char>>::empty()
    }) + (if has_insurance {
        seq!["Insurance coverage available"@]
    } else {
        Seq::<Seq<char>>::empty()
    })
}

/// Additionality verification result.
#[derive(Debug, Clone)]
pub struct AdditionalityResult {
    /// 0-100.
    pub score: u32,
    pub likely_additional: bool,
    pub factors: Vec<String>,
}

/// Permanence risk assessment result.
#[derive(Debug, Clone)]
pub struct PermanenceRisk {
    /// 0-100, higher = more risk.
    pub score: u32,
    pub risk_level: PermanenceRiskLevel,
    pub mitigation_factors: Vec<String>,
}

/// Position of a permanence risk level from lowest (0) to highest (4).
pub open spec fn permanence_level_rank(l: PermanenceRiskLevel) -> int {
    match l {
        PermanenceRiskLevel::VeryLow => 0,
        PermanenceRiskLevel::Low => 1,
        PermanenceRiskLevel::Medium => 2,
        PermanenceRiskLevel::High => 3,
        PermanenceRiskLevel::VeryHigh => 4,
    }
}

/// Mitigation never raises permanence risk: a buffer pool or insurance lowers the score
/// or leaves it unchanged, whatever the credit type and standard.
pub proof fn lemma_mitigation_never_raises_permanence_risk(
    type_lower: Seq<char>,
    standard_lower: Seq<char>,
    has_buffer_pool: bool,
    has_insurance: bool,
)
    ensures
        permanence_points(type_lower, standard_lower, true, has_insurance) <= permanence_points(
            type_lower,
            standard_lower,
            false,
            has_insurance,
        ),
        permanence_points(type_lower, standard_lower, has_buffer_pool, true) <= permanence_points(
            type_lower,
            standard_lower,
            has_buffer_pool,
            false,
        ),
{
}

/// A higher permanence score never maps to a lower risk level.
pub proof fn lemma_permanence_level_monotone(s1: int, s2: int)
    requires
        s1 <= s2,
    ensures
        permanence_level_rank(permanence_level(s1)) <= permanence_level_rank(permanence_level(s2)),
{
}

/// Documenting a baseline scenario or demonstrating regulatory surplus never lowers the
/// additionality score.
pub proof fn lemma_additionality_evidence_never_lowers_score(
    project_lower: Seq<char>,
    region_lower: Seq<char>,
    standard_lower: Seq<char>,
    baseline_documented: bool,
    regulatory_surplus: bool,
)
    ensures
        additionality_points(project_lower, region_lower, standard_lower, true, regulatory_surplus)
            >= additionality_points(
            project_lower,
            region_lower,
            standard_lower,
            false,
            regulatory_surplus,
        ),
        additionality_points(project_lower, region_lower, standard_lower, baseline_documented, true)
            >= additionality_points(
            project_lower,
            region_lower,
            standard_lower,
            baseline_documented,
            false,
        ),
{
}

/// More recent vintages never score lower.
pub proof fn lemma_recent_vintage_is_better(y1: u32, y2: u32)
    requires
        y1 <= y2,
    ensures
        vintage_points(y1) <= vintage_points(y2),
{
}

/// Gold Standard credits get the top standard score, and no standard scores higher.
pub proof fn lemma_gold_standard_is_top_tier(l: Seq<char>)
    ensures
        has_substring(l, "gold standard"@) ==> standard_points(l) == 95,
        10 <= standard_points(l) <= 95,
{
}

/// A use of proceeds is green exactly when it names at least one green category, so a bond
/// whose use of proceeds is green always has a category match.
pub proof fn lemma_green_use_means_category_match(lower: Seq<char>, projects: Seq<Seq<char>>)
    ensures
        names_green_category(lower) <==> count_present(lower, green_categories_spec()) > 0,
        names_green_category(lower) ==> count_present(lower, green_categories_spec())
            + green_projects_matching(projects) > 0,
{
    lemma_any_present_iff_count_positive(lower, green_categories_spec());
}

/// Projects in developing regions (Africa, Southeast Asia, South Asia, Latin America, or any
/// region described as developing) earn 25 region points and the factor line reporting 25;
/// Eastern Europe and the Middle East earn 18; every other region earns 10.
pub proof fn lemma_developing_regions_score_highest(
    project_lower: Seq<char>,
    region_lower: Seq<char>,
    standard_lower: Seq<char>,
    baseline_documented: bool,
    regulatory_surplus: bool,
)
    ensures
        (has_substring(region_lower, "africa"@) || has_substring(region_lower, "southeast asia"@)
            || has_substring(region_lower, "south asia"@) || has_substring(
            region_lower,
            "latin america"@,
        ) || has_substring(region_lower, "developing"@)) ==> {
            &&& region_points(region_lower) == 25
            &&& additionality_factors(region_lower, baseline_documented, regulatory_surplus)[0]
                == "Region additionality score: 25"@
            &&& additionality_points(
                project_lower,
                region_lower,
                standard_lower,
                baseline_documented,
                regulatory_surplus,
            ) >= 25 + project_type_points(project_lower)
        },
        (has_substring(region_lower, "eastern europe"@) || has_substring(region_lower, "middle east"@))
            ==> region_points(region_lower) >= 18,
        10 <= region_points(region_lower) <= 25,
        10 <= project_type_points(project_lower) <= 25,
        (has_substring(project_lower, "renewable"@) || has_substring(project_lower, "solar"@)
            || has_substring(project_lower, "wind"@)) ==> project_type_points(project_lower) == 25,
{
}

/// Energy credits (renewable or energy projects) that are not nature-based or agricultural
/// carry an inherent permanence risk of 20: with no Gold Standard or VCS credit and no
/// mitigation their score is 20 and their level is very low. Nature-based credits carry 60.
pub proof fn lemma_energy_credits_have_low_permanence_risk(
    type_lower: Seq<char>,
    standard_lower: Seq<char>,
)
    ensures
        ((has_substring(type_lower, "renewable"@) || has_substring(type_lower, "energy"@))
            && !has_substring(type_lower, "nature"@) && !has_substring(type_lower, "forest"@)
            && !has_substring(type_lower, "reforestation"@) && !has_substring(
            type_lower,
            "afforestation"@,
        ) && !has_substring(type_lower, "soil"@) && !has_substring(type_lower, "agriculture"@))
            ==> {
            &&& credit_type_risk(type_lower) == 20
            &&& (!has_substring(standard_lower, "gold standard"@) && !has_substring(
                standard_lower,
                "vcs"@,
            )) ==> permanence_points(type_lower, standard_lower, false, false) == 20
                && permanence_level(20) == PermanenceRiskLevel::VeryLow
        },
        (has_substring(type_lower, "nature"@) || has_substring(type_lower, "forest"@)
            || has_substring(type_lower, "reforestation"@) || has_substring(
            type_lower,
            "afforestation"@,
        )) ==> credit_type_risk(type_lower) == 60,
        20 <= credit_type_risk(type_lower) <= 60,
{
}

/// Standards score by tier: Gold Standard 95; VCS, CDM, Climate Action Reserve and CAR 80
/// (unless also Gold Standard); ARB, AAC, Puro and ART 65 (unless in a higher tier).
pub proof fn lemma_standard_tiers(l: Seq<char>)
    ensures
        (has_substring(l, "gold standard"@) || has_substring(l, "gs"@)) ==> standard_points(l)
            == 95,
        (!has_substring(l, "gold standard"@) && !has_substring(l, "gs"@) && (has_substring(
            l,
            "vcs"@,
        ) || has_substring(l, "cdm"@) || has_substring(l, "climate action reserve"@)
            || has_substring(l, "car"@))) ==> standard_points(l) == 80,
        (!has_substring(l, "gold standard"@) && !has_substring(l, "gs"@) && !has_substring(
            l,
            "vcs"@,
        ) && !has_substring(l, "cdm"@) && !has_substring(l, "climate action reserve"@)
            && !has_substring(l, "car"@) && (has_substring(l, "arb"@) || has_substring(
            l,
            "aac"@,
        ) || has_substring(l, "puro"@) || has_substring(l, "art"@))) ==> standard_points(l)
            == 65,
        (has_substring(l, "vcs"@) || has_substring(l, "cdm"@) || has_substring(
            l,
            "climate action reserve"@,
        ) || has_substring(l, "car"@)) ==> standard_points(l) >= 80,
{
}

/// A verified credit gets the best verification score of all statuses.
pub proof fn lemma_verified_status_scores_best(s: VerificationStatus)
    ensures
        status_points(s) <= status_points(VerificationStatus::Verified),
{
}

impl GreenBondAnalyzer {
    #[verifier::type_invariant]
    spec fn lists_fixed(self) -> bool {
        &&& self.green_categories.deep_view() == green_categories_spec()
        &&& self.recognized_standards.deep_view() == recognized_standards_spec()
    }

    /// The green use-of-proceeds categories this analyzer matches against.
    pub closed spec fn category_list(self) -> Seq<Seq<char>> {
        self.green_categories.deep_view()
    }

    /// The carbon credit standards this analyzer recognises.
    pub closed spec fn standard_list(self) -> Seq<Seq<char>> {
        self.recognized_standards.deep_view()
    }

    /// An analyzer with the built-in green categories and recognised standards.
    pub fn new() -> (a: Self)
        ensures
            a.category_list() == green_categories_spec(),
            a.standard_list() == recognized_standards_spec(),
    {
        let green_categories = to_strings(
            &[
                "renewable energy",
                "solar",
                "wind",
                "energy efficiency",
                "clean transportation",
                "green building",
                "water management",
                "waste management",
                "sustainable agriculture",
                "biodiversity",
                "pollution prevention",
                "climate adaptation",
                "sustainable forestry",
            ],
        );
        let recognized_standards = to_strings(
            &[
                "vcs",
                "gold standard",
                "gs",
                "acm0013",
                "cdm",
                "car",
                "arb",
                "aac",
                "puro.earth",
                "climate action reserve",
                "american carbon registry",
                "art",
            ],
        );
        assert(green_categories.deep_view() =~= green_categories_spec());
        assert(recognized_standards.deep_view() =~= recognized_standards_spec());
        GreenBondAnalyzer { green_categories, recognized_standards }
    }

    /// Check if a use-of-proceeds description aligns with any green category.
    pub fn is_green_use_of_proceeds(&self, use_of_proceeds: &str) -> (b: bool)
        ensures
            b == names_green_category(lowercase(use_of_proceeds@)),
    {
        proof {
            use_type_invariant(self);
        }
        let lower = to_lower(use_of_proceeds);
        contains_any(lower.as_str(), &self.green_categories)
    }

    /// How many green categories a bond's use of proceeds names, plus how many of its
    /// projects name at least one green category.
    pub fn green_category_matches(&self, use_of_proceeds: &str, green_projects: &Vec<String>) -> (n:
        usize)
        requires
            green_projects.len() + 13 <= usize::MAX,
        ensures
            n == count_present(lowercase(use_of_proceeds@), green_categories_spec())
                + green_projects_matching(green_projects.deep_view()),
    {
        proof {
            use_type_invariant(self);
        }
        let lower = to_lower(use_of_proceeds);
        let category_matches = count_contained(lower.as_str(), &self.green_categories);
        let ghost ps = green_projects.deep_view();
        let mut project_matches: usize = 0;
        let mut i: usize = 0;
        while i < green_projects.len()
            invariant
                ps == green_projects.deep_view(),
                self.green_categories.deep_view() == green_categories_spec(),
                i <= green_projects.len(),
                project_matches <= i,
                project_matches == green_projects_matching(ps.subrange(0, i as int)),
            decreases green_projects.len() - i,
        {
            proof {
                assert(ps.subrange(0, i as int + 1).drop_last() =~= ps.subrange(0, i as int));
                assert(ps[i as int] == green_projects@[i as int]@);
            }
            let project_lower = to_lower(green_projects[i].as_str());
            if contains_any(project_lower.as_str(), &self.green_categories) {
                project_matches = project_matches + 1;
            }
            i = i + 1;
        }
        assert(ps.subrange(0, green_projects.len() as int) =~= ps);
        category_matches + project_matches
    }

    /// Score based on credit vintage year (recent = better).
    pub fn vintage_year_score(&self, year: u32) -> (s: u32)
        ensures
            s == vintage_points(year),
    {
        if year >= 2023 {
            95
        } else if year >= 2020 {
            85
        } else if year >= 2017 {
            70
        } else if year >= 2014 {
            55
        } else if year >= 2010 {
            40
        } else {
            20
        }
    }

    /// Score based on carbon credit standard.
    pub fn standard_score(&self, standard: &str) -> (s: u32)
        ensures
            s == standard_points(lowercase(standard@)),
    {
        let lower = to_lower(standard);
        self.standard_score_of_lowercase(lower.as_str())
    }

    /// Score of an already lowercased standard name: Gold Standard tier 95, well-recognised
    /// tier 80, regional tier 65, otherwise recognised 55, empty 10, anything else 40.
    pub fn standard_score_of_lowercase(&self, lower: &str) -> (s: u32)
        ensures
            s == standard_points(lower@),
    {
        proof {
            use_type_invariant(self);
        }
        if contains_str(lower, "gold standard") || contains_str(lower, "gs") {
            95
        } else if contains_str(lower, "vcs") || contains_str(lower, "cdm") || contains_str(
            lower,
            "climate action reserve",
        ) || contains_str(lower, "car") {
            80
        } else if contains_str(lower, "arb") || contains_str(lower, "aac") || contains_str(
            lower,
            "puro",
        ) || contains_str(lower, "art") {
            65
        } else if contains_any(lower, &self.recognized_standards) {
            55
        } else if lower.is_empty() {
            10
        } else {
            40
        }
    }

    /// Score based on verification status.
    pub fn verification_score(&self, status: VerificationStatus) -> (s: u32)
        ensures
            s == status_points(status),
    {
        match status {
            VerificationStatus::Verified => 95,
            VerificationStatus::Pending => 50,
            VerificationStatus::Disputed => 20,
            VerificationStatus::Failed => 5,
            VerificationStatus::Expired => 30,
        }
    }

    /// Score additionality: the likelihood that the project wouldn't have happened otherwise.
    pub fn verify_additionality(
        &self,
        project_type: &str,
        region: &str,
        standard: &str,
        baseline_scenario_documented: bool,
        regulatory_surplus: bool,
    ) -> (r: AdditionalityResult)
        ensures
            r.score == additionality_points(
                lowercase(project_type@),
                lowercase(region@),
                lowercase(standard@),
                baseline_scenario_documented,
                regulatory_surplus,
            ),
            r.likely_additional == (r.score >= 55),
            r.factors.deep_view() == additionality_factors(
                lowercase(region@),
                baseline_scenario_documented,
                regulatory_surplus,
            ),
            r.score <= 100,
    {
        let project_lower = to_lower(project_type);
        let region_lower = to_lower(region);
        let standard_lower = to_lower(standard);
        self.additionality_of_lowercase(
            project_lower.as_str(),
            region_lower.as_str(),
            standard_lower.as_str(),
            baseline_scenario_documented,
            regulatory_surplus,
        )
    }

    /// Additionality of already lowercased project type, region and standard: project
    /// points + region points + a fifth of the standard score + 15 for a documented baseline
    /// + 15 for regulatory surplus, capped at 100; likely additional from 55 on.
    pub fn additionality_of_lowercase(
        &self,
        project_lower: &str,
        region_lower: &str,
        standard_lower: &str,
        baseline_scenario_documented: bool,
        regulatory_surplus: bool,
    ) -> (r: AdditionalityResult)
        ensures
            r.score == additionality_points(
                project_lower@,
                region_lower@,
                standard_lower@,
                baseline_scenario_documented,
                regulatory_surplus,
            ),
            r.likely_additional == (r.score >= 55),
            r.factors.deep_view() == additionality_factors(
                region_lower@,
                baseline_scenario_documented,
                regulatory_surplus,
            ),
            r.score <= 100,
    {
        let mut factors: Vec<String> = Vec::new();
        let project_score: u32 = if contains_str(project_lower, "renewable") || contains_str(
            project_lower,
            "solar",
        ) || contains_str(project_lower, "wind") {
            25
        } else if contains_str(project_lower, "reforestation") || contains_str(
            project_lower,
            "forestry",
        ) {
            20
        } else if contains_str(project_lower, "efficiency") || contains_str(
            project_lower,
            "methane",
        ) {
            22
        } else {
            15
        };
        let mut score: u32 = project_score;
        let region_score: u32 = if contains_str(region_lower, "africa") || contains_str(
            region_lower,
            "southeast asia",
        ) || contains_str(region_lower, "south asia") || contains_str(
            region_lower,
            "latin america",
        ) || contains_str(region_lower, "developing") {
            25
        } else if contains_str(region_lower, "eastern europe") || contains_str(
            region_lower,
            "middle east",
        ) {
            18
        } else {
            10
        };
        score = score + region_score;
        if region_score == 25 {
            factors.push("Region additionality score: 25".to_string());
        } else if region_score == 18 {
            factors.push("Region additionality score: 18".to_string());
        } else {
            factors.push("Region additionality score: 10".to_string());
        }
        let std_score = self.standard_score_of_lowercase(standard_lower) / 5;
        score = score + std_score;
        if baseline_scenario_documented {
            score = score + 15;
            factors.push("Baseline scenario documented".to_string());
        } else {
            factors.push("No baseline scenario documented".to_string());
        }
        if regulatory_surplus {
            score = score + 15;
            factors.push("Regulatory surplus demonstrated".to_string());
        } else {
            factors.push("May be required by regulation".to_string());
        }
        if score > 100 {
            score = 100;
        }
        let likely_additional = score >= 55;
        assert(factors.deep_view() =~= additionality_factors(
            region_lower@,
            baseline_scenario_documented,
            regulatory_surplus,
        ));
        AdditionalityResult { score, likely_additional, factors }
    }

    /// Score permanence risk (higher = riskier).
    pub fn assess_permanence_risk(
        &self,
        credit_type: &str,
        standard: &str,
        has_buffer_pool: bool,
        has_insurance: bool,
    ) -> (r: PermanenceRisk)
        ensures
            r.score == permanence_points(
                lowercase(credit_type@),
                lowercase(standard@),
                has_buffer_pool,
                has_insurance,
            ),
            r.risk_level == permanence_level(r.score as int),
            r.mitigation_factors.deep_view() == mitigation_factors_spec(has_buffer_pool, has_insurance),
            r.score <= 100,
    {
        let type_lower = to_lower(credit_type);
        let standard_lower = to_lower(standard);
        Self::permanence_risk_of_lowercase(
            type_lower.as_str(),
            standard_lower.as_str(),
            has_buffer_pool,
            has_insurance,
        )
    }

    /// Permanence risk of an already lowercased credit type and standard: the type's
    /// inherent risk, less 10 for Gold Standard or 5 for VCS, 15 for a buffer pool and 10
    /// for insurance, clamped to 0-100.
    pub fn permanence_risk_of_lowercase(
        type_lower: &str,
        standard_lower: &str,
        has_buffer_pool: bool,
        has_insurance: bool,
    ) -> (r: PermanenceRisk)
        ensures
            r.score == permanence_points(type_lower@, standard_lower@, has_buffer_pool, has_insurance),
            r.risk_level == permanence_level(r.score as int),
            r.mitigation_factors.deep_view() == mitigation_factors_spec(has_buffer_pool, has_insurance),
            r.score <= 100,
    {
        let mut mitigation_factors: Vec<String> = Vec::new();
        let type_risk: i32 = if contains_str(type_lower, "nature") || contains_str(
            type_lower,
            "forest",
        ) || contains_str(type_lower, "reforestation") || contains_str(
            type_lower,
            "afforestation",
        ) {
            60
        } else if contains_str(type_lower, "soil") || contains_str(type_lower, "agriculture") {
            50
        } else if contains_str(type_lower, "renewable") || contains_str(type_lower, "energy") {
            20
        } else if contains_str(type_lower, "methane") || contains_str(type_lower, "industrial") {
            30
        } else {
            40
        };
        let mut risk: i32 = type_risk;
        if contains_str(standard_lower, "gold standard") {
            risk = risk - 10;
        } else if contains_str(standard_lower, "vcs") {
            risk = risk - 5;
        }
        if has_buffer_pool {
            risk = risk - 15;
            mitigation_factors.push("Buffer pool in place".to_string());
        }
        if has_insurance {
            risk = risk - 10;
            mitigation_factors.push("Insurance coverage available".to_string());
        }
        let clamped: u32 = if risk < 0 {
            0
        } else if risk > 100 {
            100
        } else {
            risk as u32
        };
        let risk_level = if clamped >= 70 {
            PermanenceRiskLevel::VeryHigh
        } else if clamped >= 55 {
            PermanenceRiskLevel::High
        } else if clamped >= 40 {
            PermanenceRiskLevel::Medium
        } else if clamped >= 25 {
            PermanenceRiskLevel::Low
        } else {
            PermanenceRiskLevel::VeryLow
        };
        assert(mitigation_factors.deep_view() =~= mitigation_factors_spec(
            has_buffer_pool,
            has_insurance,
        ));
        PermanenceRisk { score: clamped, risk_level, mitigation_factors }
    }

    /// The green use-of-proceeds categories, in order.
    pub fn green_categories(&self) -> (r: &Vec<String>)
        ensures
            r.deep_view() == green_categories_spec(),
    {
        proof {
            use_type_invariant(self);
        }
        &self.green_categories
    }
}

impl Clone for GreenBondAnalyzer {
    /// Every analyzer holds the same fixed lists, so a copy is a fresh analyzer.
    fn clone(&self) -> (a: Self)
        ensures
            a.category_list() == self.category_list(),
            a.standard_list() == self.standard_list(),
    {
        proof {
            use_type_invariant(self);
        }
        GreenBondAnalyzer::new()
    }
}

impl Default for GreenBondAnalyzer {
    /// Same as `GreenBondAnalyzer::new`.
    fn default() -> (a: Self)
        ensures
            a.category_list() == green_categories_spec(),
            a.standard_list() == recognized_standards_spec(),
    {
        GreenBondAnalyzer::new()
    }
}

} // verus!
