//! Environmental scoring: industry benchmarks and science-based-target alignment.
use vstd::prelude::*;
use crate::text::{same_text, table_lookup, table_views_as};

verus! {

broadcast use vstd::string::group_string_axioms;

/// Industry-specific environmental benchmarks.
#[derive(Debug, Clone, Copy, PartialEq, Eq, Structural)]
pub struct EnvironmentalBenchmark {
    pub avg_carbon_per_revenue: u32,
    pub avg_renewable_pct: u32,
    pub avg_water_per_revenue: u32,
    pub avg_waste_per_revenue: u32,
}

/// Environmental scoring engine.
#[derive(Debug)]
pub struct EnvironmentalScorer {
    industry_benchmarks: Vec<(String, EnvironmentalBenchmark)>,
}

/// The built-in industry benchmarks.
pub open spec fn environmental_benchmarks_spec() -> Seq<(Seq<char>, EnvironmentalBenchmark)> {
    seq![
        ("technology"@, EnvironmentalBenchmark {
            avg_carbon_per_revenue: 50,
            avg_renewable_pct: 40,
            avg_water_per_revenue: 100,
            avg_waste_per_revenue: 5,
        }),
        ("energy"@, EnvironmentalBenchmark {
            avg_carbon_per_revenue: 500,
            avg_renewable_pct: 20,
            avg_water_per_revenue: 500,
            avg_waste_per_revenue: 20,
        }),
        ("manufacturing"@, EnvironmentalBenchmark {
            avg_carbon_per_revenue: 200,
            avg_renewable_pct: 15,
            avg_water_per_revenue: 300,
            avg_waste_per_revenue: 30,
        }),
        ("finance"@, EnvironmentalBenchmark {
            avg_carbon_per_revenue: 10,
            avg_renewable_pct: 50,
            avg_water_per_revenue: 20,
            avg_waste_per_revenue: 2,
        }),
    ]
}

/// The benchmark used for an industry without one of its own.
pub open spec fn default_environmental_benchmark() -> EnvironmentalBenchmark {
    EnvironmentalBenchmark {
        avg_carbon_per_revenue: 100,
        avg_renewable_pct: 30,
        avg_water_per_revenue: 200,
        avg_waste_per_revenue: 10,
    }
}

/// The benchmark that applies to `industry`.
pub open spec fn environmental_benchmark_for(industry: Seq<char>) -> EnvironmentalBenchmark {
    match table_lookup(environmental_benchmarks_spec(), industry) {
        Some(b) => b,
        None => default_environmental_benchmark(),
    }
}

/// Alignment with the Science-Based Targets initiative.
pub open spec fn sbt_points(has_target: bool, target_year: u32, on_track: bool) -> int {
    if !has_target {
        20
    } else {
        (if target_year <= 2030 {
            40int
        } else if target_year <= 2040 {
            30int
        } else if target_year <= 2050 {
            20int
        } else {
            10int
        }) + (if on_track {
            40int
        } else {
            15int
        })
    }
}

/// Having a science-based target always scores above having none; being on track never
/// scores below being off track; an earlier target year never scores below a later one.
pub proof fn lemma_sbt_alignment_rewards_commitment(
    target_year: u32,
    later_year: u32,
    on_track: bool,
)
    requires
        target_year <= later_year,
    ensures
        sbt_points(true, target_year, on_track) > sbt_points(false, target_year, on_track),
        sbt_points(true, target_year, true) >= sbt_points(true, target_year, false),
        sbt_points(true, target_year, on_track) >= sbt_points(true, later_year, on_track),
{
}

impl EnvironmentalScorer {
    #[verifier::type_invariant]
    spec fn table_fixed(self) -> bool {
        table_views_as(self.industry_benchmarks@, environmental_benchmarks_spec())
    }

    /// The benchmark table of this scorer.
    pub closed spec fn benchmark_table(self) -> Seq<(Seq<char>, EnvironmentalBenchmark)> {
        self.industry_benchmarks@.map_values(|e: (String, EnvironmentalBenchmark)| (e.0@, e.1))
    }

    /// A scorer with the built-in industry benchmarks.
    pub fn new() -> (s: Self)
        ensures
            s.benchmark_table() == environmental_benchmarks_spec(),
    {
        let mut benchmarks: Vec<(String, EnvironmentalBenchmark)> = Vec::new();
        benchmarks.push(
            (
                "technology".to_string(),
                EnvironmentalBenchmark {
                    avg_carbon_per_revenue: 50,
                    avg_renewable_pct: 40,
                    avg_water_per_revenue: 100,
                    avg_waste_per_revenue: 5,
                },
            ),
        );
        benchmarks.push(
            (
                "energy".to_string(),
                EnvironmentalBenchmark {
                    avg_carbon_per_revenue: 500,
                    avg_renewable_pct: 20,
                    avg_water_per_revenue: 500,
                    avg_waste_per_revenue: 20,
                },
            ),
        );
        benchmarks.push(
            (
                "manufacturing".to_string(),
                EnvironmentalBenchmark {
                    avg_carbon_per_revenue: 200,
                    avg_renewable_pct: 15,
                    avg_water_per_revenue: 300,
                    avg_waste_per_revenue: 30,
                },
            ),
        );
        benchmarks.push(
            (
                "finance".to_string(),
                EnvironmentalBenchmark {
                    avg_carbon_per_revenue: 10,
                    avg_renewable_pct: 50,
                    avg_water_per_revenue: 20,
                    avg_waste_per_revenue: 2,
                },
            ),
        );
        let s = EnvironmentalScorer { industry_benchmarks: benchmarks };
        assert(s.benchmark_table() =~= environmental_benchmarks_spec());
        s
    }

    /// The benchmark stored for `industry`, if there is one.
    pub fn benchmark(&self, industry: &str) -> (b: Option<EnvironmentalBenchmark>)
        ensures
            b == table_lookup(environmental_benchmarks_spec(), industry@),
    {
        proof {
            use_type_invariant(self);
        }
        let ghost spec_table = environmental_benchmarks_spec();
        assert(spec_table.subrange(0, spec_table.len() as int) =~= spec_table);
        let mut i: usize = 0;
        while i < self.industry_benchmarks.len()
            invariant
                spec_table == environmental_benchmarks_spec(),
                table_views_as(self.industry_benchmarks@, spec_table),
                i <= self.industry_benchmarks.len(),
                table_lookup(spec_table, industry@) == table_lookup(
                    spec_table.subrange(i as int, spec_table.len() as int),
                    industry@,
                ),
            decreases self.industry_benchmarks.len() - i,
        {
            let ghost rest = spec_table.subrange(i as int, spec_table.len() as int);
            assert(rest[0] == spec_table[i as int]);
            assert(self.industry_benchmarks@[i as int].0@ == spec_table[i as int].0);
            if same_text(industry, self.industry_benchmarks[i].0.as_str()) {
                assert(rest.len() > 0 && rest[0].0 == industry@);
                assert(table_lookup(rest, industry@) == Some(rest[0].1));
                let found = self.industry_benchmarks[i].1;
                assert(found == spec_table[i as int].1);
                return Some(found);
            }
            assert(rest.drop_first() =~= spec_table.subrange(i as int + 1, spec_table.len() as int));
            i = i + 1;
        }
        None
    }

    /// The benchmark for `industry`, or the default benchmark when it has none.
    pub fn benchmark_or_default(&self, industry: &str) -> (b: EnvironmentalBenchmark)
        ensures
            b == environmental_benchmark_for(industry@),
    {
        match self.benchmark(industry) {
            Some(b) => b,
            None => EnvironmentalBenchmark {
                avg_carbon_per_revenue: 100,
                avg_renewable_pct: 30,
                avg_water_per_revenue: 200,
                avg_waste_per_revenue: 10,
            },
        }
    }

    /// Check alignment with Science-Based Targets initiative.
    pub fn sbt_alignment_score(has_target: bool, target_year: u32, current_trajectory_on_track: bool) -> (s:
        u32)
        ensures
            s == sbt_points(has_target, target_year, current_trajectory_on_track),
    {
        if !has_target {
            return 20;
        }
        let target_score: u32 = if target_year <= 2030 {
            40
        } else if target_year <= 2040 {
            30
        } else if target_year <= 2050 {
            20
        } else {
            10
        };
        let trajectory_score: u32 = if current_trajectory_on_track {
            40
        } else {
            15
        };
        target_score + trajectory_score
    }
}

impl Clone for EnvironmentalScorer {
    /// Every scorer holds the same fixed table, so a copy is a fresh scorer.
    fn clone(&self) -> (s: Self)
        ensures
            s.benchmark_table() == self.benchmark_table(),
    {
        proof {
            use_type_invariant(self);
            assert(self.benchmark_table() =~= environmental_benchmarks_spec());
        }
        EnvironmentalScorer::new()
    }
}

impl Default for EnvironmentalScorer {
    /// Same as `EnvironmentalScorer::new`.
    fn default() -> (s: Self)
        ensures
            s.benchmark_table() == environmental_benchmarks_spec(),
    {
        EnvironmentalScorer::new()
    }
}

} // verus!
