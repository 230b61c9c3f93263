//! Claim verification: how strong a claim sounds, and where its evidence comes from.
use vstd::prelude::*;
use crate::text::{chars_of, contains_str, has_substring, lowercase, matches_at, same_text, to_lower};

verus! {

broadcast use vstd::string::group_string_axioms;

/// Claim verification engine for greenwashing detection and ESG claim validation.
#[derive(Debug, Clone)]
pub struct VerificationEngine;

/// Greenwashing risk level.
#[derive(Debug, Clone, Copy, PartialEq, Eq, Structural)]
pub enum GreenwashingRiskLevel {
    Low,
    Medium,
    High,
    Critical,
}

/// Temporal trend direction.
#[derive(Debug, Clone, Copy, PartialEq, Eq, Structural)]
pub enum TemporalTrend {
    Improving,
    Stable,
    Declining,
}

/// Red flag detection result.
#[derive(Debug, Clone)]
pub struct RedFlagResult {
    pub has_red_flags: bool,
    pub flags: Vec<String>,
    pub severity: RedFlagSeverity,
}

/// Red flag severity.
#[derive(Debug, Clone, Copy, PartialEq, Eq, Structural)]
pub enum RedFlagSeverity {
    NoFlags,
    Low,
    Medium,
    High,
    Critical,
}

/// Claim intensity parsed from text.
#[derive(Debug, Clone)]
pub struct ClaimIntensity {
    /// 0-100: how strong the claim sounds.
    pub claimed_level: u32,
    /// The phrases that were found, strongest group first.
    pub keywords_found: Vec<String>,
}

/// The phrases that make a claim sound strong, moderate or weak, with their points:
/// strong phrases first, then moderate, then weak.
pub open spec fn claim_phrase_table() -> Seq<(Seq<char>, int)> {
    seq![
        ("carbon neutral"@, 25int),
        ("net zero"@, 25int),
        ("zero emissions"@, 30int),
        ("climate positive"@, 30int),
        ("100% renewable"@, 25int),
        ("fully sustainable"@, 25int),
        ("completely green"@, 25int),
        ("reducing emissions"@, 15int),
        ("sustainable"@, 15int),
        ("green"@, 10int),
        ("eco-friendly"@, 15int),
        ("renewable"@, 15int),
        ("low carbon"@, 15int),
        ("carbon reduction"@, 15int),
        ("climate target"@, 15int),
        ("committed to"@, 5int),
        ("working towards"@, 5int),
        ("plan to"@, 5int),
        ("aiming to"@, 5int),
        ("goal of"@, 5int),
        ("aspiring to"@, 5int),
    ]
}

/// The entries of `table` whose phrase occurs in `text`, in table order.
pub open spec fn phrases_found(text: Seq<char>, table: Seq<(Seq<char>, int)>) -> Seq<(Seq<char>, int)>
    decreases table.len(),
{
    if table.len() == 0 {
        seq![]
    } else {
        let rest = phrases_found(text, table.drop_last());
        if has_substring(text, table.last().0) {
            rest.push(table.last())
        } else {
            rest
        }
    }
}

/// The sum of the points of `entries`.
pub open spec fn total_points(entries: Seq<(Seq<char>, int)>) -> int
    decreases entries.len(),
{
    if entries.len() == 0 {
        0
    } else {
        total_points(entries.drop_last()) + entries.last().1
    }
}

/// The phrases found in an already lowercased claim.
pub open spec fn claim_keywords_spec(lower: Seq<char>) -> Seq<Seq<char>> {
    phrases_found(lower, claim_phrase_table()).map_values(|e: (Seq<char>, int)| e.0)
}

/// The intensity of an already lowercased claim: its points, capped at 100.
pub open spec fn claim_level_spec(lower: Seq<char>) -> int {
    let p = total_points(phrases_found(lower, claim_phrase_table()));
    if p < 100 { p } else { 100 }
}

/// The phrase table as executable data.
fn claim_phrases() -> (t: Vec<(&'static str, u32)>)
    ensures
        t@.len() == claim_phrase_table().len(),
        forall|i: int| 0 <= i < t@.len() ==> (#[trigger] t@[i]).0@ == claim_phrase_table()[i].0
            && t@[i].1 == claim_phrase_table()[i].1,
{
    let mut t: Vec<(&'static str, u32)> = Vec::new();
    t.push(("carbon neutral", 25));
    t.push(("net zero", 25));
    t.push(("zero emissions", 30));
    t.push(("climate positive", 30));
    t.push(("100% renewable", 25));
    t.push(("fully sustainable", 25));
    t.push(("completely green", 25));
    t.push(("reducing emissions", 15));
    t.push(("sustainable", 15));
    t.push(("green", 10));
    t.push(("eco-friendly", 15));
    t.push(("renewable", 15));
    t.push(("low carbon", 15));
    t.push(("carbon reduction", 15));
    t.push(("climate target", 15));
    t.push(("committed to", 5));
    t.push(("working towards", 5));
    t.push(("plan to", 5));
    t.push(("aiming to", 5));
    t.push(("goal of", 5));
    t.push(("aspiring to", 5));
    t
}

proof fn lemma_total_points_bound(entries: Seq<(Seq<char>, int)>, text: Seq<char>, n: int)
    requires
        0 <= n <= claim_phrase_table().len(),
        entries == phrases_found(text, claim_phrase_table().subrange(0, n)),
    ensures
        0 <= total_points(entries) <= 30 * n,
    decreases n,
{
    let t = claim_phrase_table().subrange(0, n);
    if n > 0 {
        assert(t.drop_last() =~= claim_phrase_table().subrange(0, n - 1));
        let rest = phrases_found(text, t.drop_last());
        lemma_total_points_bound(rest, text, n - 1);
        assert(0 <= t.last().1 <= 30);
        assert(rest.push(t.last()).drop_last() =~= rest);
    }
}

/// `s` with every leading copy of the non-empty prefix `p` removed.
pub open spec fn strip_repeated(s: Seq<char>, p: Seq<char>) -> Seq<char>
    decreases s.len(),
{
    if 0 < p.len() && p.len() <= s.len() && s.subrange(0, p.len() as int) == p {
        strip_repeated(s.subrange(p.len() as int, s.len() as int), p)
    } else {
        s
    }
}

/// The part of `s` before its first `/` (all of `s` when it has none).
pub open spec fn before_slash(s: Seq<char>) -> Seq<char>
    decreases s.len(),
{
    if s.len() == 0 {
        s
    } else if s[0] == '/' {
        Seq::empty()
    } else {
        seq![s[0]] + before_slash(s.drop_first())
    }
}

/// The domain of an evidence URL: leading `https://`, then `http://`, prefixes removed,
/// and everything from the first `/` on dropped.
pub open spec fn url_domain_spec(url: Seq<char>) -> Seq<char> {
    before_slash(strip_repeated(strip_repeated(url, "https://"@), "http://"@))
}

/// The domain of each URL, in order.
pub open spec fn domains_of(urls: Seq<Seq<char>>) -> Seq<Seq<char>> {
    urls.map_values(|u: Seq<char>| url_domain_spec(u))
}

/// The number of different domains among `urls`.
pub open spec fn distinct_domain_count(urls: Seq<Seq<char>>) -> nat {
    domains_of(urls).to_set().len()
}

/// Skip every copy of `p` that follows position `start` of `s`.
fn skip_repeated_prefix(s: &Vec<char>, start: usize, p: &Vec<char>) -> (k: usize)
    requires
        start <= s.len(),
    ensures
        start <= k <= s.len(),
        s@.subrange(k as int, s@.len() as int) == strip_repeated(
            s@.subrange(start as int, s@.len() as int),
            p@,
        ),
    decreases s.len() - start,
{
    let ghost t = s@.subrange(start as int, s@.len() as int);
    if p.len() > 0 && p.len() <= s.len() - start {
        proof {
            assert(t.subrange(0, p@.len() as int) =~= s@.subrange(
                start as int,
                start + p@.len(),
            ));
        }
        if matches_at(s, p, start) {
            proof {
                assert(t.subrange(p@.len() as int, t.len() as int) =~= s@.subrange(
                    start + p@.len(),
                    s@.len() as int,
                ));
            }
            return skip_repeated_prefix(s, start + p.len(), p);
        }
    }
    start
}

proof fn lemma_before_slash(t: Seq<char>, j: int)
    requires
        0 <= j <= t.len(),
        forall|k: int| 0 <= k < j ==> t[k] != '/',
        j == t.len() || t[j] == '/',
    ensures
        before_slash(t) == t.subrange(0, j),
    decreases j,
{
    if j == 0 {
        assert(t.subrange(0, 0) =~= Seq::<char>::empty());
        if t.len() == 0 {
            assert(t =~= Seq::<char>::empty());
        }
    } else {
        let u = t.drop_first();
        assert forall|k: int| 0 <= k < j - 1 implies u[k] != '/' by {
            assert(u[k] == t[k + 1]);
        }
        lemma_before_slash(u, j - 1);
        assert(t.subrange(0, j) =~= seq![t[0]] + u.subrange(0, j - 1));
    }
}

/// The domain of an evidence URL: leading `https://` then `http://` prefixes removed, and
/// everything from the first `/` on dropped.
pub fn url_domain(url: &str) -> (d: String)
    ensures
        d@ == url_domain_spec(url@),
{
    let cs = chars_of(url);
    let https = chars_of("https://");
    let http = chars_of("http://");
    let a = skip_repeated_prefix(&cs, 0, &https);
    assert(cs@.subrange(0, cs@.len() as int) =~= cs@);
    let b = skip_repeated_prefix(&cs, a, &http);
    let mut j: usize = b;
    while j < cs.len() && cs[j] != '/'
        invariant
            b <= j <= cs.len(),
            forall|k: int| b <= k < j ==> cs@[k] != '/',
        decreases cs.len() - j,
    {
        j = j + 1;
    }
    proof {
        let t = cs@.subrange(b as int, cs@.len() as int);
        assert forall|k: int| 0 <= k < j - b implies t[k] != '/' by {
            assert(t[k] == cs@[b + k]);
        }
        if j < cs.len() {
            assert(t[j - b] == cs@[j as int]);
        }
        lemma_before_slash(t, j - b);
        assert(t.subrange(0, j - b) =~= cs@.subrange(b as int, j as int));
    }
    let part = url.substring_char(b, j);
    part.to_string()
}

/// The number of different domains among evidence URLs.
pub fn count_distinct_domains(urls: &Vec<String>) -> (n: usize)
    ensures
        n == distinct_domain_count(urls.deep_view()),
        n <= urls.len(),
        urls.len() > 0 ==> n >= 1,
{
    let ghost all = urls.deep_view();
    let mut seen: Vec<String> = Vec::new();
    let mut i: usize = 0;
    while i < urls.len()
        invariant
            all == urls.deep_view(),
            i <= urls.len(),
            seen.deep_view().no_duplicates(),
            seen.deep_view().to_set() == domains_of(all.subrange(0, i as int)).to_set(),
        decreases urls.len() - i,
    {
        let d = url_domain(urls[i].as_str());
        let mut found = false;
        let mut k: usize = 0;
        while k < seen.len()
            invariant
                k <= seen.len(),
                found ==> seen.deep_view().contains(d@),
                !found ==> forall|m: int| 0 <= m < k ==> seen.deep_view()[m] != d@,
            decreases seen.len() - k,
        {
            if seen[k] == d {
                found = true;
                assert(seen.deep_view()[k as int] == d@);
            }
            k = k + 1;
        }
        let ghost before = seen.deep_view();
        let ghost dom_prev = domains_of(all.subrange(0, i as int));
        let ghost dom_next = domains_of(all.subrange(0, i as int + 1));
        proof {
            assert(all[i as int] == urls@[i as int]@);
            assert(dom_next =~= dom_prev.push(d@));
            Seq::<Seq<char>>::lemma_to_set_insert_commutes(dom_prev, d@);
            assert(dom_prev.push(d@) =~= dom_prev + seq![d@]);
        }
        if !found {
            seen.push(d);
            proof {
                assert(seen.deep_view() =~= before.push(d@));
                Seq::<Seq<char>>::lemma_to_set_insert_commutes(before, d@);
                assert(before.push(d@) =~= before + seq![d@]);
                assert(!before.contains(d@));
            }
        } else {
            proof {
                assert(before.to_set().insert(d@) =~= before.to_set());
            }
        }
        i = i + 1;
    }
    proof {
        assert(all.subrange(0, urls.len() as int) =~= all);
        seen.deep_view().unique_seq_to_set();
        domains_of(all).lemma_cardinality_of_set();
        domains_of(all).lemma_cardinality_of_empty_set_is_0();
    }
    seen.len()
}

proof fn lemma_phrases_found_occur(text: Seq<char>, table: Seq<(Seq<char>, int)>)
    ensures
        forall|k: int|
            0 <= k < phrases_found(text, table).len() ==> has_substring(
                text,
                (#[trigger] phrases_found(text, table)[k]).0,
            ),
        phrases_found(text, table).len() <= table.len(),
    decreases table.len(),
{
    if table.len() > 0 {
        lemma_phrases_found_occur(text, table.drop_last());
    }
}

proof fn lemma_total_points_nonneg(text: Seq<char>, table: Seq<(Seq<char>, int)>)
    requires
        forall|i: int| 0 <= i < table.len() ==> (#[trigger] table[i]).1 >= 0,
    ensures
        total_points(phrases_found(text, table)) >= 0,
    decreases table.len(),
{
    if table.len() > 0 {
        let rest = table.drop_last();
        assert forall|i: int| 0 <= i < rest.len() implies (#[trigger] rest[i]).1 >= 0 by {
            assert(rest[i] == table[i]);
        }
        lemma_total_points_nonneg(text, rest);
        let found = phrases_found(text, rest);
        assert(found.push(table.last()).drop_last() =~= found);
        assert(table[table.len() - 1].1 >= 0);
    }
}

proof fn lemma_found_entry_counts(text: Seq<char>, table: Seq<(Seq<char>, int)>, k: int)
    requires
        0 <= k < table.len(),
        has_substring(text, table[k].0),
        forall|i: int| 0 <= i < table.len() ==> (#[trigger] table[i]).1 >= 0,
    ensures
        total_points(phrases_found(text, table)) >= table[k].1,
        phrases_found(text, table).contains(table[k]),
    decreases table.len(),
{
    let rest = table.drop_last();
    let found = phrases_found(text, rest);
    assert forall|i: int| 0 <= i < rest.len() implies (#[trigger] rest[i]).1 >= 0 by {
        assert(rest[i] == table[i]);
    }
    assert(table[table.len() - 1].1 >= 0);
    assert(found.push(table.last()).drop_last() =~= found);
    if k == table.len() - 1 {
        lemma_total_points_nonneg(text, rest);
        assert(found.push(table.last())[found.len() as int] == table[k]);
    } else {
        assert(rest[k] == table[k]);
        lemma_found_entry_counts(text, rest, k);
        if has_substring(text, table.last().0) {
            let j = choose|j: int| 0 <= j < found.len() && found[j] == table[k];
            assert(found.push(table.last())[j] == table[k]);
        }
    }
}

proof fn lemma_found_phrase_counts(lower: Seq<char>, t: Seq<(Seq<char>, int)>, k: int)
    requires
        t == claim_phrase_table(),
        0 <= k < t.len(),
    ensures
        has_substring(lower, t[k].0) ==> claim_level_spec(lower) >= t[k].1
            && claim_keywords_spec(lower).contains(t[k].0),
{
    if has_substring(lower, t[k].0) {
        assert forall|i: int| 0 <= i < t.len() implies (#[trigger] t[i]).1 >= 0 by {}
        lemma_found_entry_counts(lower, t, k);
        let found = phrases_found(lower, t);
        let j = choose|j: int| 0 <= j < found.len() && found[j] == t[k];
        assert(claim_keywords_spec(lower)[j] == t[k].0);
    }
}

/// Every claim phrase that occurs in a (lowercased) claim is reported as a keyword and lifts
/// the claim's intensity to at least its own weight: strong claims (carbon neutral, net zero,
/// 100% renewable, fully sustainable, completely green) at least 25 and zero emissions or
/// climate positive at least 30; moderate claims at least 15 (green at least 10); aspirational
/// wording at least 5.
pub proof fn lemma_claim_phrases_lift_intensity(lower: Seq<char>)
    ensures
        has_substring(lower, "carbon neutral"@) ==> claim_level_spec(lower) >= 25 && claim_keywords_spec(
            lower,
        ).contains("carbon neutral"@),
        has_substring(lower, "net zero"@) ==> claim_level_spec(lower) >= 25 && claim_keywords_spec(
            lower,
        ).contains("net zero"@),
        has_substring(lower, "zero emissions"@) ==> claim_level_spec(lower) >= 30 && claim_keywords_spec(
            lower,
        ).contains("zero emissions"@),
        has_substring(lower, "climate positive"@) ==> claim_level_spec(lower) >= 30 && claim_keywords_spec(
            lower,
        ).contains("climate positive"@),
        has_substring(lower, "100% renewable"@) ==> claim_level_spec(lower) >= 25 && claim_keywords_spec(
            lower,
        ).contains("100% renewable"@),
        has_substring(lower, "fully sustainable"@) ==> claim_level_spec(lower) >= 25 && claim_keywords_spec(
            lower,
        ).contains("fully sustainable"@),
        has_substring(lower, "completely green"@) ==> claim_level_spec(lower) >= 25 && claim_keywords_spec(
            lower,
        ).contains("completely green"@),
        has_substring(lower, "reducing emissions"@) ==> claim_level_spec(lower) >= 15 && claim_keywords_spec(
            lower,
        ).contains("reducing emissions"@),
        has_substring(lower, "sustainable"@) ==> claim_level_spec(lower) >= 15 && claim_keywords_spec(
            lower,
        ).contains("sustainable"@),
        has_substring(lower, "green"@) ==> claim_level_spec(lower) >= 10 && claim_keywords_spec(
            lower,
        ).contains("green"@),
        has_substring(lower, "eco-friendly"@) ==> claim_level_spec(lower) >= 15 && claim_keywords_spec(
            lower,
        ).contains("eco-friendly"@),
        has_substring(lower, "renewable"@) ==> claim_level_spec(lower) >= 15 && claim_keywords_spec(
            lower,
        ).contains("renewable"@),
        has_substring(lower, "low carbon"@) ==> claim_level_spec(lower) >= 15 && claim_keywords_spec(
            lower,
        ).contains("low carbon"@),
        has_substring(lower, "carbon reduction"@) ==> claim_level_spec(lower) >= 15 && claim_keywords_spec(
            lower,
        ).contains("carbon reduction"@),
        has_substring(lower, "climate target"@) ==> claim_level_spec(lower) >= 15 && claim_keywords_spec(
            lower,
        ).contains("climate target"@),
        has_substring(lower, "committed to"@) ==> claim_level_spec(lower) >= 5 && claim_keywords_spec(
            lower,
        ).contains("committed to"@),
        has_substring(lower, "working towards"@) ==> claim_level_spec(lower) >= 5 && claim_keywords_spec(
            lower,
        ).contains("working towards"@),
        has_substring(lower, "plan to"@) ==> claim_level_spec(lower) >= 5 && claim_keywords_spec(
            lower,
        ).contains("plan to"@),
        has_substring(lower, "aiming to"@) ==> claim_level_spec(lower) >= 5 && claim_keywords_spec(
            lower,
        ).contains("aiming to"@),
        has_substring(lower, "goal of"@) ==> claim_level_spec(lower) >= 5 && claim_keywords_spec(
            lower,
        ).contains("goal of"@),
        has_substring(lower, "aspiring to"@) ==> claim_level_spec(lower) >= 5 && claim_keywords_spec(
            lower,
        ).contains("aspiring to"@),
{
    let t = claim_phrase_table();
    lemma_found_phrase_counts(lower, t, 0);
    lemma_found_phrase_counts(lower, t, 1);
    lemma_found_phrase_counts(lower, t, 2);
    lemma_found_phrase_counts(lower, t, 3);
    lemma_found_phrase_counts(lower, t, 4);
    lemma_found_phrase_counts(lower, t, 5);
    lemma_found_phrase_counts(lower, t, 6);
    lemma_found_phrase_counts(lower, t, 7);
    lemma_found_phrase_counts(lower, t, 8);
    lemma_found_phrase_counts(lower, t, 9);
    lemma_found_phrase_counts(lower, t, 10);
    lemma_found_phrase_counts(lower, t, 11);
    lemma_found_phrase_counts(lower, t, 12);
    lemma_found_phrase_counts(lower, t, 13);
    lemma_found_phrase_counts(lower, t, 14);
    lemma_found_phrase_counts(lower, t, 15);
    lemma_found_phrase_counts(lower, t, 16);
    lemma_found_phrase_counts(lower, t, 17);
    lemma_found_phrase_counts(lower, t, 18);
    lemma_found_phrase_counts(lower, t, 19);
    lemma_found_phrase_counts(lower, t, 20);
}

/// Every keyword reported for a claim is a phrase of the table that occurs in the claim.
pub proof fn lemma_found_keywords_occur_in_claim(lower: Seq<char>)
    ensures
        forall|k: int|
            0 <= k < claim_keywords_spec(lower).len() ==> has_substring(
                lower,
                #[trigger] claim_keywords_spec(lower)[k],
            ),
        claim_keywords_spec(lower).len() <= claim_phrase_table().len(),
{
    lemma_phrases_found_occur(lower, claim_phrase_table());
    assert forall|k: int| 0 <= k < claim_keywords_spec(lower).len() implies has_substring(
        lower,
        #[trigger] claim_keywords_spec(lower)[k],
    ) by {
        assert(claim_keywords_spec(lower)[k] == phrases_found(lower, claim_phrase_table())[k].0);
    }
}

proof fn lemma_before_slash_has_no_slash(s: Seq<char>)
    ensures
        forall|k: int| 0 <= k < before_slash(s).len() ==> before_slash(s)[k] != '/',
        before_slash(s).len() <= s.len(),
    decreases s.len(),
{
    if s.len() > 0 && s[0] != '/' {
        lemma_before_slash_has_no_slash(s.drop_first());
        let r = before_slash(s.drop_first());
        assert forall|k: int| 0 <= k < before_slash(s).len() implies before_slash(s)[k] != '/' by {
            if k > 0 {
                assert(before_slash(s)[k] == r[k - 1]);
            }
        }
    }
}

/// The domain of a URL never contains a `/`.
pub proof fn lemma_domain_has_no_slash(url: Seq<char>)
    ensures
        forall|k: int| 0 <= k < url_domain_spec(url).len() ==> url_domain_spec(url)[k] != '/',
{
    lemma_before_slash_has_no_slash(strip_repeated(strip_repeated(url, "https://"@), "http://"@));
}

/// Lowercased text that talks about carbon, emissions, climate or renewables.
pub open spec fn environmental_topic(lower: Seq<char>) -> bool {
    has_substring(lower, "carbon"@) || has_substring(lower, "emissions"@) || has_substring(
        lower,
        "climate"@,
    ) || has_substring(lower, "renewable"@)
}

/// Keywords that express aspiration rather than achievement.
pub open spec fn is_aspirational(k: Seq<char>) -> bool {
    k == "committed to"@ || k == "working towards"@ || k == "plan to"@
}

impl ClaimIntensity {
    /// Were aspirational phrases ("committed to", "working towards", "plan to") found?
    pub fn uses_aspirational_language(&self) -> (b: bool)
        ensures
            b == exists|i: int|
                0 <= i < self.keywords_found.deep_view().len() && is_aspirational(
                    #[trigger] self.keywords_found.deep_view()[i],
                ),
    {
        let mut i: usize = 0;
        while i < self.keywords_found.len()
            invariant
                i <= self.keywords_found.len(),
                forall|k: int| 0 <= k < i ==> !is_aspirational(#[trigger] self.keywords_found.deep_view()[k]),
            decreases self.keywords_found.len() - i,
        {
            let k = self.keywords_found[i].as_str();
            if same_text(k, "committed to") || same_text(k, "working towards") || same_text(k, "plan to") {
                assert(is_aspirational(self.keywords_found.deep_view()[i as int]));
                return true;
            }
            i = i + 1;
        }
        false
    }
}

impl VerificationEngine {
    /// The (stateless) verification engine.
    pub fn new() -> (e: Self)
        ensures
            e == VerificationEngine,
    {
        VerificationEngine
    }

    /// Does a claim talk about carbon, emissions, climate or renewables (case-insensitively)?
    pub fn is_environmental_claim(claim_text: &str) -> (b: bool)
        ensures
            b == environmental_topic(lowercase(claim_text@)),
    {
        let lower = to_lower(claim_text);
        Self::mentions_environmental_topic(lower.as_str())
    }

    /// Does already lowercased text mention carbon, emissions, climate or renewables?
    pub fn mentions_environmental_topic(lower: &str) -> (b: bool)
        ensures
            b == environmental_topic(lower@),
    {
        contains_str(lower, "carbon") || contains_str(lower, "emissions") || contains_str(
            lower,
            "climate",
        ) || contains_str(lower, "renewable")
    }

    /// Parse the intensity level of an environmental claim (0-100).
    pub fn parse_claim_intensity(claim_text: &str) -> (ci: ClaimIntensity)
        ensures
            ci.claimed_level == claim_level_spec(lowercase(claim_text@)),
            ci.keywords_found.deep_view() == claim_keywords_spec(lowercase(claim_text@)),
            ci.claimed_level <= 100,
    {
        let lower = to_lower(claim_text);
        Self::parse_lowercase_claim_intensity(lower.as_str())
    }

    /// The intensity of a claim whose text is already lowercase: the points of every
    /// phrase of the table that occurs in it, capped at 100, and those phrases in table order.
    pub fn parse_lowercase_claim_intensity(lower: &str) -> (ci: ClaimIntensity)
        ensures
            ci.claimed_level == claim_level_spec(lower@),
            ci.keywords_found.deep_view() == claim_keywords_spec(lower@),
            ci.claimed_level <= 100,
    {
        let table = claim_phrases();
        let ghost spec_table = claim_phrase_table();
        let mut score: u32 = 0;
        let mut keywords: Vec<String> = Vec::new();
        let mut i: usize = 0;
        while i < table.len()
            invariant
                table@.len() == spec_table.len(),
                spec_table == claim_phrase_table(),
                forall|k: int| 0 <= k < table@.len() ==> (#[trigger] table@[k]).0@ == spec_table[k].0
                    && table@[k].1 == spec_table[k].1,
                i <= table.len(),
                score == total_points(phrases_found(lower@, spec_table.subrange(0, i as int))),
                keywords.deep_view() == phrases_found(lower@, spec_table.subrange(0, i as int)).map_values(
                    |e: (Seq<char>, int)| e.0,
                ),
            decreases table.len() - i,
        {
            let ghost prev = spec_table.subrange(0, i as int);
            let ghost next = spec_table.subrange(0, i as int + 1);
            proof {
                assert(next.drop_last() =~= prev);
                assert(next.last() == spec_table[i as int]);
                lemma_total_points_bound(phrases_found(lower@, prev), lower@, i as int);
            }
            let (word, pts) = table[i];
            assert(pts <= 30);
            if contains_str(lower, word) {
                score = score + pts;
                let w = word.to_string();
                let ghost old_kw = keywords.deep_view();
                assert(phrases_found(lower@, prev).push(next.last()).drop_last()
                    =~= phrases_found(lower@, prev));
                keywords.push(w);
                assert(keywords.deep_view() =~= old_kw.push(word@));
                assert(phrases_found(lower@, next).map_values(|e: (Seq<char>, int)| e.0)
                    =~= phrases_found(lower@, prev).map_values(|e: (Seq<char>, int)| e.0).push(word@));
            }
            i = i + 1;
        }
        assert(spec_table.subrange(0, table.len() as int) =~= spec_table);
        let claimed_level = if score < 100 { score } else { 100 };
        ClaimIntensity { claimed_level, keywords_found: keywords }
    }
}

impl Default for VerificationEngine {
    /// Same as `VerificationEngine::new`.
    fn default() -> (e: Self)
        ensures
            e == VerificationEngine,
    {
        Self::new()
    }
}

} // verus!
