//! Social scoring: industry benchmarks, data privacy and human rights due diligence.
use vstd::prelude::*;
use crate::text::{same_text, table_lookup, table_views_as};

verus! {

broadcast use vstd::string::group_string_axioms;

/// Industry-specific social benchmarks.
#[derive(Debug, Clone, Copy, PartialEq, Eq, Structural)]
pub struct SocialBenchmark {
    pub avg_satisfaction: u32,
    pub avg_diversity: u32,
    pub avg_turnover: u32,
    pub avg_gender_pay_gap: u32,
}

/// Social scoring engine.
#[derive(Debug)]
pub struct SocialScorer {
    industry_benchmarks: Vec<(String, SocialBenchmark)>,
}

/// The built-in industry benchmarks.
pub open spec fn social_benchmarks_spec() -> Seq<(Seq<char>, SocialBenchmark)> {
    seq![
        ("technology"@, SocialBenchmark {
            avg_satisfaction: 75,
            avg_diversity: 60,
            avg_turnover: 13,
            avg_gender_pay_gap: 15,
        }),
        ("finance"@, SocialBenchmark {
            avg_satisfaction: 70,
            avg_diversity: 55,
            avg_turnover: 15,
            avg_gender_pay_gap: 20,
        }),
        ("manufacturing"@, SocialBenchmark {
            avg_satisfaction: 65,
            avg_diversity: 40,
            avg_turnover: 18,
            avg_gender_pay_gap: 18,
        }),
        ("healthcare"@, SocialBenchmark {
            avg_satisfaction: 70,
            avg_diversity: 50,
            avg_turnover: 20,
            avg_gender_pay_gap: 12,
        }),
    ]
}

/// The benchmark used for an industry without one of its own.
pub open spec fn default_social_benchmark() -> SocialBenchmark {
    SocialBenchmark { avg_satisfaction: 70, avg_diversity: 50, avg_turnover: 15, avg_gender_pay_gap: 17 }
}

/// The benchmark that applies to `industry`.
pub open spec fn social_benchmark_for(industry: Seq<char>) -> SocialBenchmark {
    match table_lookup(social_benchmarks_spec(), industry) {
        Some(b) => b,
        None => default_social_benchmark(),
    }
}

/// Data privacy score: points for a data protection officer (15), encryption (20), a privacy
/// framework (20) and GDPR compliance (20), less 10 per breach up to 40, never below 0.
pub open spec fn data_privacy_points(
    has_dpo: bool,
    has_encryption: bool,
    breach_count: u32,
    has_privacy_framework: bool,
    gdpr_compliant: bool,
) -> int {
    let base = (if has_dpo {
        15int
    } else {
        0int
    }) + (if has_encryption {
        20int
    } else {
        0int
    }) + (if has_privacy_framework {
        20int
    } else {
        0int
    }) + (if gdpr_compliant {
        20int
    } else {
        0int
    });
    let penalty = if 10 * breach_count < 40 {
        10 * breach_count
    } else {
        40int
    };
    if base - penalty < 0 {
        0
    } else {
        base - penalty
    }
}

/// Human rights score: points for a policy (30), a grievance mechanism (25) and impact
/// assessments (25), less 10 per incident up to 30, never below 0.
pub open spec fn human_rights_points(
    has_hr_policy: bool,
    has_grievance_mechanism: bool,
    conducts_impact_assessments: bool,
    hr_incidents: u32,
) -> int {
    let base = (if has_hr_policy {
        30int
    } else {
        0int
    }) + (if has_grievance_mechanism {
        25int
    } else {
        0int
    }) + (if conducts_impact_assessments {
        25int
    } else {
        0int
    });
    let penalty = if 10 * hr_incidents < 30 {
        10 * hr_incidents
    } else {
        30int
    };
    if base - penalty < 0 {
        0
    } else {
        base - penalty
    }
}

/// More breaches never raise the data privacy score.
pub proof fn lemma_breaches_never_raise_privacy_score(
    has_dpo: bool,
    has_encryption: bool,
    fewer: u32,
    more: u32,
    has_privacy_framework: bool,
    gdpr_compliant: bool,
)
    requires
        fewer <= more,
    ensures
        data_privacy_points(has_dpo, has_encryption, more, has_privacy_framework, gdpr_compliant)
            <= data_privacy_points(has_dpo, has_encryption, fewer, has_privacy_framework, gdpr_compliant),
{
}

/// More incidents never raise the human rights score.
pub proof fn lemma_incidents_never_raise_human_rights_score(
    has_hr_policy: bool,
    has_grievance_mechanism: bool,
    conducts_impact_assessments: bool,
    fewer: u32,
    more: u32,
)
    requires
        fewer <= more,
    ensures
        human_rights_points(has_hr_policy, has_grievance_mechanism, conducts_impact_assessments, more)
            <= human_rights_points(
            has_hr_policy,
            has_grievance_mechanism,
            conducts_impact_assessments,
            fewer,
        ),
{
}

impl SocialScorer {
    #[verifier::type_invariant]
    spec fn table_fixed(self) -> bool {
        table_views_as(self.industry_benchmarks@, social_benchmarks_spec())
    }

    /// The benchmark table of this scorer.
    pub closed spec fn benchmark_table(self) -> Seq<(Seq<char>, SocialBenchmark)> {
        self.industry_benchmarks@.map_values(|e: (String, SocialBenchmark)| (e.0@, e.1))
    }

    /// A scorer with the built-in industry benchmarks.
    pub fn new() -> (s: Self)
        ensures
            s.benchmark_table() == social_benchmarks_spec(),
    {
        let mut benchmarks: Vec<(String, SocialBenchmark)> = Vec::new();
        benchmarks.push(
            (
                "technology".to_string(),
                SocialBenchmark {
                    avg_satisfaction: 75,
                    avg_diversity: 60,
                    avg_turnover: 13,
                    avg_gender_pay_gap: 15,
                },
            ),
        );
        benchmarks.push(
            (
                "finance".to_string(),
                SocialBenchmark {
                    avg_satisfaction: 70,
                    avg_diversity: 55,
                    avg_turnover: 15,
                    avg_gender_pay_gap: 20,
                },
            ),
        );
        benchmarks.push(
            (
                "manufacturing".to_string(),
                SocialBenchmark {
                    avg_satisfaction: 65,
                    avg_diversity: 40,
                    avg_turnover: 18,
                    avg_gender_pay_gap: 18,
                },
            ),
        );
        benchmarks.push(
            (
                "healthcare".to_string(),
                SocialBenchmark {
                    avg_satisfaction: 70,
                    avg_diversity: 50,
                    avg_turnover: 20,
                    avg_gender_pay_gap: 12,
                },
            ),
        );
        let s = SocialScorer { industry_benchmarks: benchmarks };
        assert(s.benchmark_table() =~= social_benchmarks_spec());
        s
    }

    /// The benchmark stored for `industry`, if there is one.
    pub fn benchmark(&self, industry: &str) -> (b: Option<SocialBenchmark>)
        ensures
            b == table_lookup(social_benchmarks_spec(), industry@),
    {
        proof {
            use_type_invariant(self);
        }
        let ghost spec_table = social_benchmarks_spec();
        assert(spec_table.subrange(0, spec_table.len() as int) =~= spec_table);
        let mut i: usize = 0;
        while i < self.industry_benchmarks.len()
            invariant
                spec_table == social_benchmarks_spec(),
                table_views_as(self.industry_benchmarks@, spec_table),
                i <= self.industry_benchmarks.len(),
                table_lookup(spec_table, industry@) == table_lookup(
                    spec_table.subrange(i as int, spec_table.len() as int),
                    industry@,
                ),
            decreases self.industry_benchmarks.len() - i,
        {
            let ghost rest = spec_table.subrange(i as int, spec_table.len() as int);
            assert(rest[0] == spec_table[i as int]);
            assert(self.industry_benchmarks@[i as int].0@ == spec_table[i as int].0);
            if same_text(industry, self.industry_benchmarks[i].0.as_str()) {
                assert(rest.len() > 0 && rest[0].0 == industry@);
                assert(table_lookup(rest, industry@) == Some(rest[0].1));
                let found = self.industry_benchmarks[i].1;
                assert(found == spec_table[i as int].1);
                return Some(found);
            }
            assert(rest.drop_first() =~= spec_table.subrange(i as int + 1, spec_table.len() as int));
            i = i + 1;
        }
        None
    }

    /// The benchmark for `industry`, or the default benchmark when it has none.
    pub fn get_benchmark(&self, industry: &str) -> (b: SocialBenchmark)
        ensures
            b == social_benchmark_for(industry@),
    {
        match self.benchmark(industry) {
            Some(b) => b,
            None => SocialBenchmark {
                avg_satisfaction: 70,
                avg_diversity: 50,
                avg_turnover: 15,
                avg_gender_pay_gap: 17,
            },
        }
    }

    /// Score data privacy and security practices.
    pub fn data_privacy_score(
        has_dpo: bool,
        has_encryption: bool,
        breach_count: u32,
        has_privacy_framework: bool,
        gdpr_compliant: bool,
    ) -> (s: u32)
        ensures
            s == data_privacy_points(
                has_dpo,
                has_encryption,
                breach_count,
                has_privacy_framework,
                gdpr_compliant,
            ),
            s <= 75,
    {
        let mut score: u32 = 0;
        if has_dpo {
            score = score + 15;
        }
        if has_encryption {
            score = score + 20;
        }
        if has_privacy_framework {
            score = score + 20;
        }
        if gdpr_compliant {
            score = score + 20;
        }
        let breach_penalty: u32 = if breach_count < 4 {
            breach_count * 10
        } else {
            40
        };
        if score > breach_penalty {
            score - breach_penalty
        } else {
            0
        }
    }

    /// Score human rights due diligence.
    pub fn human_rights_score(
        has_hr_policy: bool,
        has_grievance_mechanism: bool,
        conducts_impact_assessments: bool,
        hr_incidents: u32,
    ) -> (s: u32)
        ensures
            s == human_rights_points(
                has_hr_policy,
                has_grievance_mechanism,
                conducts_impact_assessments,
                hr_incidents,
            ),
            s <= 80,
    {
        let mut score: u32 = 0;
        if has_hr_policy {
            score = score + 30;
        }
        if has_grievance_mechanism {
            score = score + 25;
        }
        if conducts_impact_assessments {
            score = score + 25;
        }
        let incident_penalty: u32 = if hr_incidents < 3 {
            hr_incidents * 10
        } else {
            30
        };
        if score > incident_penalty {
            score - incident_penalty
        } else {
            0
        }
    }
}

impl Clone for SocialScorer {
    /// Every scorer holds the same fixed table, so a copy is a fresh scorer.
    fn clone(&self) -> (s: Self)
        ensures
            s.benchmark_table() == self.benchmark_table(),
    {
        proof {
            use_type_invariant(self);
            assert(self.benchmark_table() =~= social_benchmarks_spec());
        }
        SocialScorer::new()
    }
}

impl Default for SocialScorer {
    /// Same as `SocialScorer::new`.
    fn default() -> (s: Self)
        ensures
            s.benchmark_table() == social_benchmarks_spec(),
    {
        SocialScorer::new()
    }
}

} // verus!
