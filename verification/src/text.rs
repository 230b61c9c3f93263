//! Text helpers: lowercase normalisation and substring search on character sequences.
use vstd::prelude::*;

verus! {

broadcast use vstd::string::group_string_axioms;

/// What `str::to_lowercase` returns for a character sequence: its Unicode lowercase mapping.
pub uninterp spec fn lowercase(s: Seq<char>) -> Seq<char>;

/// Wraps `str::to_lowercase`. The contract claims only that the result depends on the input's
/// characters alone (it is `lowercase` of them); the Unicode case mapping itself is left unstated.
#[verifier::external_body]
pub(crate) fn to_lower(s: &str) -> (r: String)
    ensures
        r@ == lowercase(s@),
{
    s.to_lowercase()
}

/// `needle` occurs in `hay` starting at position `i`.
pub open spec fn occurs_at(hay: Seq<char>, needle: Seq<char>, i: int) -> bool {
    &&& 0 <= i
    &&& i + needle.len() <= hay.len()
    &&& hay.subrange(i, i + needle.len()) == needle
}

/// `needle` occurs somewhere in `hay`.
pub open spec fn has_substring(hay: Seq<char>, needle: Seq<char>) -> bool {
    exists|i: int| occurs_at(hay, needle, i)
}

/// The characters of a string slice, in order.
pub fn chars_of(s: &str) -> (r: Vec<char>)
    ensures
        r@ == s@,
{
    let n = s.unicode_len();
    let mut out: Vec<char> = Vec::new();
    let mut i: usize = 0;
    while i < n
        invariant
            n == s@.len(),
            i <= n,
            out@ == s@.subrange(0, i as int),
        decreases n - i,
    {
        let c = s.get_char(i);
        out.push(c);
        i = i + 1;
        assert(out@ =~= s@.subrange(0, i as int));
    }
    assert(out@ =~= s@);
    out
}

/// Does `needle` occur at position `start` of `hay`?
pub(crate) fn matches_at(hay: &Vec<char>, needle: &Vec<char>, start: usize) -> (r: bool)
    requires
        start + needle.len() <= hay.len(),
    ensures
        r == occurs_at(hay@, needle@, start as int),
{
    let m = needle.len();
    let mut j: usize = 0;
    while j < m
        invariant
            m == needle.len(),
            start + m <= hay.len(),
            j <= m,
            forall|k: int| 0 <= k < j ==> hay@[start + k] == needle@[k],
        decreases m - j,
    {
        if hay[start + j] != needle[j] {
            assert(hay@.subrange(start as int, start + m)[j as int] != needle@[j as int]);
            return false;
        }
        j = j + 1;
    }
    assert(hay@.subrange(start as int, start + m) =~= needle@);
    true
}

/// Substring search: does `needle` occur in `hay`?
pub fn contains_str(hay: &str, needle: &str) -> (r: bool)
    ensures
        r == has_substring(hay@, needle@),
{
    let h = chars_of(hay);
    let n = chars_of(needle);
    if n.len() > h.len() {
        assert forall|i: int| !occurs_at(hay@, needle@, i) by {}
        return false;
    }
    let last = h.len() - n.len();
    let mut i: usize = 0;
    loop
        invariant
            h@ == hay@,
            n@ == needle@,
            last + n.len() == h.len(),
            i <= last,
            forall|k: int| 0 <= k < i ==> !occurs_at(hay@, needle@, k),
        ensures
            forall|k: int| 0 <= k <= last ==> !occurs_at(hay@, needle@, k),
        decreases last - i,
    {
        if matches_at(&h, &n, i) {
            return true;
        }
        if i == last {
            break;
        }
        i = i + 1;
    }
    assert forall|k: int| !occurs_at(hay@, needle@, k) by {
        if 0 <= k && k + needle@.len() <= hay@.len() {
            assert(k <= last);
        }
    }
    false
}

/// How many of `phrases` occur in `text`.
pub open spec fn count_present(text: Seq<char>, phrases: Seq<Seq<char>>) -> nat
    decreases phrases.len(),
{
    if phrases.len() == 0 {
        0
    } else {
        count_present(text, phrases.drop_last()) + if has_substring(text, phrases.last()) {
            1nat
        } else {
            0nat
        }
    }
}

/// Some phrase of `phrases` occurs in `text`.
pub open spec fn any_present(text: Seq<char>, phrases: Seq<Seq<char>>) -> bool {
    exists|i: int| 0 <= i < phrases.len() && has_substring(text, #[trigger] phrases[i])
}

/// Some phrase occurs exactly when the number of phrases that occur is positive.
pub proof fn lemma_any_present_iff_count_positive(text: Seq<char>, phrases: Seq<Seq<char>>)
    ensures
        any_present(text, phrases) <==> count_present(text, phrases) > 0,
    decreases phrases.len(),
{
    if phrases.len() > 0 {
        let rest = phrases.drop_last();
        lemma_any_present_iff_count_positive(text, rest);
        if any_present(text, rest) {
            let i = choose|i: int| 0 <= i < rest.len() && has_substring(text, #[trigger] rest[i]);
            assert(phrases[i] == rest[i]);
        }
        if any_present(text, phrases) {
            let i = choose|i: int| 0 <= i < phrases.len() && has_substring(text, #[trigger] phrases[i]);
            if i < phrases.len() - 1 {
                assert(rest[i] == phrases[i]);
            }
        }
        if has_substring(text, phrases.last()) {
            assert(has_substring(text, phrases[phrases.len() - 1]));
        }
    }
}

/// How many of `phrases` occur in `text`.
pub fn count_contained(text: &str, phrases: &Vec<String>) -> (n: usize)
    ensures
        n == count_present(text@, phrases.deep_view()),
        n <= phrases.len(),
{
    let ghost ps = phrases.deep_view();
    let mut n: usize = 0;
    let mut i: usize = 0;
    while i < phrases.len()
        invariant
            ps == phrases.deep_view(),
            i <= phrases.len(),
            n <= i,
            n == count_present(text@, ps.subrange(0, i as int)),
        decreases phrases.len() - i,
    {
        proof {
            assert(ps.subrange(0, i as int + 1).drop_last() =~= ps.subrange(0, i as int));
        }
        if contains_str(text, phrases[i].as_str()) {
            n = n + 1;
        }
        i = i + 1;
    }
    assert(ps.subrange(0, phrases.len() as int) =~= ps);
    n
}

/// Does some phrase of `phrases` occur in `text`?
pub fn contains_any(text: &str, phrases: &Vec<String>) -> (b: bool)
    ensures
        b == any_present(text@, phrases.deep_view()),
{
    let ghost ps = phrases.deep_view();
    let mut i: usize = 0;
    while i < phrases.len()
        invariant
            ps == phrases.deep_view(),
            i <= phrases.len(),
            forall|k: int| 0 <= k < i ==> !has_substring(text@, #[trigger] ps[k]),
        decreases phrases.len() - i,
    {
        if contains_str(text, phrases[i].as_str()) {
            assert(has_substring(text@, ps[i as int]));
            return true;
        }
        i = i + 1;
    }
    false
}

/// Owned copies of string literals, in order.
pub fn to_strings(words: &[&str]) -> (v: Vec<String>)
    ensures
        v.deep_view() == words@.map_values(|w: &str| w@),
{
    let mut v: Vec<String> = Vec::new();
    let mut i: usize = 0;
    while i < words.len()
        invariant
            i <= words@.len(),
            v.deep_view() == words@.subrange(0, i as int).map_values(|w: &str| w@),
        decreases words.len() - i,
    {
        let ghost before = v.deep_view();
        v.push(words[i].to_string());
        assert(v.deep_view() =~= before.push(words@[i as int]@));
        assert(words@.subrange(0, i as int + 1).map_values(|w: &str| w@) =~= words@.subrange(
            0,
            i as int,
        ).map_values(|w: &str| w@).push(words@[i as int]@));
        i = i + 1;
    }
    assert(words@.subrange(0, words@.len() as int) =~= words@);
    v
}

/// Are two strings the same character sequence?
pub fn same_text(a: &str, b: &str) -> (r: bool)
    ensures
        r == (a@ == b@),
{
    let x = chars_of(a);
    let y = chars_of(b);
    if x.len() != y.len() {
        return false;
    }
    let mut i: usize = 0;
    while i < x.len()
        invariant
            x@ == a@,
            y@ == b@,
            x.len() == y.len(),
            i <= x.len(),
            forall|k: int| 0 <= k < i ==> x@[k] == y@[k],
        decreases x.len() - i,
    {
        if x[i] != y[i] {
            return false;
        }
        i = i + 1;
    }
    assert(x@ =~= y@);
    true
}

/// The value stored under `key` in a table of (name, value) entries, looking from the front.
pub open spec fn table_lookup<V>(table: Seq<(Seq<char>, V)>, key: Seq<char>) -> Option<V>
    decreases table.len(),
{
    if table.len() == 0 {
        None
    } else if table[0].0 == key {
        Some(table[0].1)
    } else {
        table_lookup(table.drop_first(), key)
    }
}

/// A table whose entries view as `spec`.
pub open spec fn table_views_as<V>(table: Seq<(String, V)>, spec: Seq<(Seq<char>, V)>) -> bool {
    &&& table.len() == spec.len()
    &&& forall|i: int| 0 <= i < table.len() ==> (#[trigger] table[i]).0@ == spec[i].0 && table[i].1 == spec[i].1
}

} // verus!
