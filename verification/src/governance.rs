//! Governance scoring: board size, audit quality and keyword evidence in policy texts.
use vstd::prelude::*;
use crate::text::{
    any_present, contains_any, contains_str, count_contained, count_present, has_substring,
    lowercase, same_text, to_lower, to_strings,
};

verus! {

broadcast use vstd::string::group_string_axioms;

/// Governance scoring engine.
#[derive(Debug)]
pub struct GovernanceScorer {
    big4_auditors: Vec<String>,
    anti_corruption_keywords: Vec<String>,
    disclosure_topics: Vec<String>,
    related_party_keywords: Vec<String>,
}

/// Auditor names that mark a top-tier audit firm.
pub open spec fn big4_auditors_spec() -> Seq<Seq<char>> {
    seq![
        "deloitte"@,
        "pricewaterhousecoopers"@,
        "pwc"@,
        "ernst & young"@,
        "ey"@,
        "kpmg"@,
        "grant thornton"@,
    ]
}

/// Phrases that evidence an anti-corruption policy.
pub open spec fn anti_corruption_keywords_spec() -> Seq<Seq<char>> {
    seq![
        "anti-corruption"@,
        "anti corruption"@,
        "bribery"@,
        "fraud prevention"@,
        "whistleblower"@,
        "whistle-blower"@,
        "conflict of interest"@,
        "ethics"@,
        "code of conduct"@,
        "compliance"@,
        "due diligence"@,
        "facilitation payments"@,
    ]
}

/// Topics a transparent disclosure covers.
pub open spec fn disclosure_topics_spec() -> Seq<Seq<char>> {
    seq![
        "climate"@,
        "carbon"@,
        "emissions"@,
        "water"@,
        "waste"@,
        "biodiversity"@,
        "human rights"@,
        "labor"@,
        "supply chain"@,
        "governance"@,
        "board"@,
        "compensation"@,
        "diversity"@,
        "inclusion"@,
        "safety"@,
        "community"@,
    ]
}

/// Phrases that point at related-party transactions.
pub open spec fn related_party_keywords_spec() -> Seq<Seq<char>> {
    seq![
        "related party"@,
        "related-party"@,
        "insider transaction"@,
        "insider dealing"@,
        "self-dealing"@,
        "self dealing"@,
        "affiliated transaction"@,
        "family member"@,
        "controlling shareholder"@,
    ]
}

/// Score of a board's size: moderate boards (9 to 12 members) are best.
pub open spec fn board_size_points(n: u32) -> int {
    if n == 0 {
        0
    } else if n <= 3 {
        30
    } else if n <= 5 {
        50
    } else if n <= 8 {
        80
    } else if n <= 12 {
        95
    } else if n <= 15 {
        85
    } else if n <= 20 {
        65
    } else {
        40
    }
}

/// Audit quality of a lowercased auditor name.
pub open spec fn audit_points(l: Seq<char>) -> int {
    if any_present(l, big4_auditors_spec()) {
        90
    } else if has_substring(l, "audit"@) || has_substring(l, "accounting"@) {
        60
    } else if l.len() == 0 || l == "none"@ || l == "n/a"@ {
        10
    } else {
        50
    }
}

/// Lowercased text in which more than 20% of the related-party phrases occur.
pub open spec fn related_party_concern(l: Seq<char>) -> bool {
    100 * count_present(l, related_party_keywords_spec()) > 20 * related_party_keywords_spec().len()
}

/// Any auditor name that mentions one of the top-tier firms (Deloitte,
/// PricewaterhouseCoopers, PwC, Ernst & Young, EY, KPMG, Grant Thornton) gets audit quality 90,
/// the highest audit score.
pub proof fn lemma_top_tier_auditors_score_90(l: Seq<char>)
    ensures
        (has_substring(l, "deloitte"@) || has_substring(l, "pricewaterhousecoopers"@)
            || has_substring(l, "pwc"@) || has_substring(l, "ernst & young"@) || has_substring(
            l,
            "ey"@,
        ) || has_substring(l, "kpmg"@) || has_substring(l, "grant thornton"@)) ==> audit_points(
            l,
        ) == 90,
        10 <= audit_points(l) <= 90,
{
    let names = big4_auditors_spec();
    if has_substring(l, "deloitte"@) {
        assert(has_substring(l, names[0]));
    } else if has_substring(l, "pricewaterhousecoopers"@) {
        assert(has_substring(l, names[1]));
    } else if has_substring(l, "pwc"@) {
        assert(has_substring(l, names[2]));
    } else if has_substring(l, "ernst & young"@) {
        assert(has_substring(l, names[3]));
    } else if has_substring(l, "ey"@) {
        assert(has_substring(l, names[4]));
    } else if has_substring(l, "kpmg"@) {
        assert(has_substring(l, names[5]));
    } else if has_substring(l, "grant thornton"@) {
        assert(has_substring(l, names[6]));
    }
}

/// Boards of 9 to 12 members get the best size score, and only they do.
pub proof fn lemma_moderate_board_is_best(n: u32)
    ensures
        board_size_points(n) <= 95,
        board_size_points(n) == 95 <==> 9 <= n <= 12,
{
}

/// Related-party transactions are a concern exactly when at least two of the related-party
/// phrases occur.
pub proof fn lemma_related_party_concern_needs_two_phrases(l: Seq<char>)
    ensures
        related_party_concern(l) <==> count_present(l, related_party_keywords_spec()) >= 2,
{
}

impl GovernanceScorer {
    #[verifier::type_invariant]
    spec fn lists_fixed(self) -> bool {
        &&& self.big4_auditors.deep_view() == big4_auditors_spec()
        &&& self.anti_corruption_keywords.deep_view() == anti_corruption_keywords_spec()
        &&& self.disclosure_topics.deep_view() == disclosure_topics_spec()
        &&& self.related_party_keywords.deep_view() == related_party_keywords_spec()
    }

    /// The keyword lists this scorer works with: auditors, anti-corruption phrases,
    /// disclosure topics and related-party phrases.
    pub closed spec fn keyword_lists(self) -> (
        Seq<Seq<char>>,
        Seq<Seq<char>>,
        Seq<Seq<char>>,
        Seq<Seq<char>>,
    ) {
        (
            self.big4_auditors.deep_view(),
            self.anti_corruption_keywords.deep_view(),
            self.disclosure_topics.deep_view(),
            self.related_party_keywords.deep_view(),
        )
    }

    /// A scorer with the built-in auditor names and keyword lists.
    pub fn new() -> (s: Self)
        ensures
            s.keyword_lists() == (
                big4_auditors_spec(),
                anti_corruption_keywords_spec(),
                disclosure_topics_spec(),
                related_party_keywords_spec(),
            ),
    {
        let big4_auditors = to_strings(
            &[
                "deloitte",
                "pricewaterhousecoopers",
                "pwc",
                "ernst & young",
                "ey",
                "kpmg",
                "grant thornton",
            ],
        );
        let anti_corruption_keywords = to_strings(
            &[
                "anti-corruption",
                "anti corruption",
                "bribery",
                "fraud prevention",
                "whistleblower",
                "whistle-blower",
                "conflict of interest",
                "ethics",
                "code of conduct",
                "compliance",
                "due diligence",
                "facilitation payments",
            ],
        );
        let disclosure_topics = to_strings(
            &[
                "climate",
                "carbon",
                "emissions",
                "water",
                "waste",
                "biodiversity",
                "human rights",
                "labor",
                "supply chain",
                "governance",
                "board",
                "compensation",
                "diversity",
                "inclusion",
                "safety",
                "community",
            ],
        );
        let related_party_keywords = to_strings(
            &[
                "related party",
                "related-party",
                "insider transaction",
                "insider dealing",
                "self-dealing",
                "self dealing",
                "affiliated transaction",
                "family member",
                "controlling shareholder",
            ],
        );
        assert(big4_auditors.deep_view() =~= big4_auditors_spec());
        assert(anti_corruption_keywords.deep_view() =~= anti_corruption_keywords_spec());
        assert(disclosure_topics.deep_view() =~= disclosure_topics_spec());
        assert(related_party_keywords.deep_view() =~= related_party_keywords_spec());
        GovernanceScorer {
            big4_auditors,
            anti_corruption_keywords,
            disclosure_topics,
            related_party_keywords,
        }
    }

    /// Score board size (0-100). Moderate board sizes tend to be optimal.
    pub fn board_size_score(board_size: u32) -> (s: u32)
        ensures
            s == board_size_points(board_size),
    {
        if board_size == 0 {
            0
        } else if board_size <= 3 {
            30
        } else if board_size <= 5 {
            50
        } else if board_size <= 8 {
            80
        } else if board_size <= 12 {
            95
        } else if board_size <= 15 {
            85
        } else if board_size <= 20 {
            65
        } else {
            40
        }
    }

    /// Score audit quality based on auditor name.
    pub fn audit_quality_score(&self, auditor_name: &str) -> (s: u32)
        ensures
            s == audit_points(lowercase(auditor_name@)),
    {
        let lower = to_lower(auditor_name);
        self.audit_quality_of_lowercase(lower.as_str())
    }

    /// Audit quality of an already lowercased auditor name: 90 for a top-tier firm, 60 for
    /// an audit or accounting firm, 10 for a missing auditor, 50 otherwise.
    pub fn audit_quality_of_lowercase(&self, lower: &str) -> (s: u32)
        ensures
            s == audit_points(lower@),
    {
        proof {
            use_type_invariant(self);
        }
        if contains_any(lower, &self.big4_auditors) {
            90
        } else if contains_str(lower, "audit") || contains_str(lower, "accounting") {
            60
        } else if lower.is_empty() || same_text(lower, "none") || same_text(lower, "n/a") {
            10
        } else {
            50
        }
    }

    /// How many anti-corruption phrases a policy text mentions (case-insensitively).
    pub fn anti_corruption_keyword_count(&self, policy_text: &str) -> (n: usize)
        ensures
            n == count_present(lowercase(policy_text@), anti_corruption_keywords_spec()),
            n <= anti_corruption_keywords_spec().len(),
    {
        proof {
            use_type_invariant(self);
        }
        let lower = to_lower(policy_text);
        count_contained(lower.as_str(), &self.anti_corruption_keywords)
    }

    /// How many disclosure topics a text mentions (case-insensitively).
    pub fn disclosure_topic_count(&self, disclosure_text: &str) -> (n: usize)
        ensures
            n == count_present(lowercase(disclosure_text@), disclosure_topics_spec()),
            n <= disclosure_topics_spec().len(),
    {
        proof {
            use_type_invariant(self);
        }
        let lower = to_lower(disclosure_text);
        count_contained(lower.as_str(), &self.disclosure_topics)
    }

    /// How many related-party phrases a text mentions (case-insensitively).
    pub fn related_party_keyword_count(&self, text: &str) -> (n: usize)
        ensures
            n == count_present(lowercase(text@), related_party_keywords_spec()),
            n <= related_party_keywords_spec().len(),
    {
        proof {
            use_type_invariant(self);
        }
        let lower = to_lower(text);
        count_contained(lower.as_str(), &self.related_party_keywords)
    }

    /// Check if related party transactions are a concern: more than 20% of the
    /// related-party phrases occur in the text.
    pub fn has_related_party_concerns(&self, text: &str) -> (b: bool)
        ensures
            b == related_party_concern(lowercase(text@)),
    {
        proof {
            use_type_invariant(self);
        }
        let matched = self.related_party_keyword_count(text);
        let total = self.related_party_keywords.len();
        100 * matched > 20 * total
    }

    /// The auditor names that count as top tier.
    pub fn big4_auditors(&self) -> (r: &Vec<String>)
        ensures
            r.deep_view() == big4_auditors_spec(),
    {
        proof {
            use_type_invariant(self);
        }
        &self.big4_auditors
    }

    /// The anti-corruption phrases.
    pub fn anti_corruption_keywords(&self) -> (r: &Vec<String>)
        ensures
            r.deep_view() == anti_corruption_keywords_spec(),
    {
        proof {
            use_type_invariant(self);
        }
        &self.anti_corruption_keywords
    }

    /// The disclosure topics.
    pub fn disclosure_topics(&self) -> (r: &Vec<String>)
        ensures
            r.deep_view() == disclosure_topics_spec(),
    {
        proof {
            use_type_invariant(self);
        }
        &self.disclosure_topics
    }

    /// The related-party phrases.
    pub fn related_party_keywords(&self) -> (r: &Vec<String>)
        ensures
            r.deep_view() == related_party_keywords_spec(),
    {
        proof {
            use_type_invariant(self);
        }
        &self.related_party_keywords
    }
}

impl Clone for GovernanceScorer {
    /// Every scorer holds the same fixed lists, so a copy is a fresh scorer.
    fn clone(&self) -> (s: Self)
        ensures
            s.keyword_lists() == self.keyword_lists(),
    {
        proof {
            use_type_invariant(self);
        }
        GovernanceScorer::new()
    }
}

impl Default for GovernanceScorer {
    /// Same as `GovernanceScorer::new`.
    fn default() -> (s: Self)
        ensures
            s.keyword_lists() == (
                big4_auditors_spec(),
                anti_corruption_keywords_spec(),
                disclosure_topics_spec(),
                related_party_keywords_spec(),
            ),
    {
        GovernanceScorer::new()
    }
}

} // verus!
