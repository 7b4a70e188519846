//! Character-level facts about strings: substring occurrence and comma
//! separated fields.

use vstd::prelude::*;
use vstd::string::StringExecFns;

verus! {

/// `p` occurs in `s` starting at position `i`.
pub open spec fn occurs_at(s: Seq<char>, p: Seq<char>, i: int) -> bool {
    &&& 0 <= i
    &&& i + p.len() <= s.len()
    &&& s.subrange(i, i + p.len()) == p
}

/// `p` occurs somewhere in `s` (the empty pattern occurs in every string).
pub open spec fn contains_seq(s: Seq<char>, p: Seq<char>) -> bool {
    exists|i: int| occurs_at(s, p, i)
}

/// Some string of `v` contains `p`.
pub open spec fn some_contains(v: Seq<String>, p: Seq<char>) -> bool {
    exists|i: int| 0 <= i < v.len() && contains_seq(#[trigger] v[i]@, p)
}

/// No character of `s` is a comma.
pub open spec fn comma_free(s: Seq<char>) -> bool {
    forall|i: int| 0 <= i < s.len() ==> s[i] != ','
}

fn occurs_here(s: &str, pat: &str, i: usize) -> (r: bool)
    requires
        i + pat@.len() <= s@.len(),
    ensures
        r == occurs_at(s@, pat@, i as int),
{
    let n = s.unicode_len();
    let m = pat.unicode_len();
    let mut k: usize = 0;
    while k < m
        invariant
            m == pat@.len(),
            n == s@.len(),
            i + m <= n,
            k <= m,
            forall|q: int| 0 <= q < k ==> s@[i + q] == pat@[q],
        decreases m - k,
    {
        if s.get_char(i + k) != pat.get_char(k) {
            assert(s@.subrange(i as int, i + m)[k as int] != pat@[k as int]);
            return false;
        }
        k = k + 1;
    }
    assert(s@.subrange(i as int, i + m) =~= pat@);
    true
}

/// Tells whether `pat` occurs in `s`.
pub fn str_contains(s: &str, pat: &str) -> (r: bool)
    ensures
        r == contains_seq(s@, pat@),
{
    let n = s.unicode_len();
    let m = pat.unicode_len();
    if m > n {
        return false;
    }
    if m == 0 {
        assert(occurs_at(s@, pat@, 0)) by {
            assert(s@.subrange(0, 0) =~= pat@);
        }
        return true;
    }
    let mut i: usize = 0;
    while i <= n - m
        invariant
            n == s@.len(),
            m == pat@.len(),
            1 <= m <= n,
            i <= n - m + 1,
            forall|j: int| 0 <= j < i ==> !occurs_at(s@, pat@, j),
        decreases n - m + 1 - i,
    {
        if occurs_here(s, pat, i) {
            return true;
        }
        i = i + 1;
    }
    false
}

/// Tells whether some string of `v` contains `pat`.
pub fn any_contains(v: &Vec<String>, pat: &str) -> (r: bool)
    ensures
        r == some_contains(v@, pat@),
{
    let mut i: usize = 0;
    while i < v.len()
        invariant
            i <= v@.len(),
            forall|j: int| 0 <= j < i ==> !contains_seq(#[trigger] v@[j]@, pat@),
        decreases v@.len() - i,
    {
        if str_contains(v[i].as_str(), pat) {
            return true;
        }
        i = i + 1;
    }
    false
}

/// `a` and `b` are the first two comma separated fields of `line`: `a` runs
/// up to the first comma, and `b` from there up to the next comma or the
/// end of the line.
pub open spec fn line_fields(line: Seq<char>, a: Seq<char>, b: Seq<char>) -> bool {
    let rest = line.skip(a.len() as int + 1);
    &&& a.len() < line.len()
    &&& line[a.len() as int] == ','
    &&& line.take(a.len() as int) == a
    &&& comma_free(a)
    &&& b.len() <= rest.len()
    &&& rest.take(b.len() as int) == b
    &&& comma_free(b)
    &&& (b.len() == rest.len() || rest[b.len() as int] == ',')
}

/// The position of the first comma of `s` at or after `from`, or the length
/// of `s` where there is none.
fn find_comma(s: &str, from: usize) -> (r: usize)
    requires
        from <= s@.len(),
    ensures
        from <= r <= s@.len(),
        forall|k: int| from <= k < r ==> s@[k] != ',',
        r < s@.len() ==> s@[r as int] == ',',
{
    let n = s.unicode_len();
    let mut i = from;
    while i < n
        invariant
            n == s@.len(),
            from <= i <= n,
            forall|k: int| from <= k < i ==> s@[k] != ',',
        decreases n - i,
    {
        if s.get_char(i) == ',' {
            return i;
        }
        i = i + 1;
    }
    i
}

/// Splits a line of a result file into its first two comma separated
/// fields; none where the line has no comma.
pub fn parse_line(line: &str) -> (r: Option<(String, String)>)
    ensures
        match r {
            None => comma_free(line@),
            Some((a, b)) => line_fields(line@, a@, b@),
        },
{
    let n = line.unicode_len();
    let i = find_comma(line, 0);
    if i == n {
        return None;
    }
    let j = find_comma(line, i + 1);
    let a = String::from_str(line.substring_char(0, i));
    let b = String::from_str(line.substring_char(i + 1, j));
    proof {
        let rest = line@.skip(i + 1);
        assert(line@.take(i as int) =~= a@);
        assert(rest.take(b@.len() as int) =~= b@);
        assert(forall|k: int| 0 <= k < b@.len() ==> b@[k] == line@[i + 1 + k]);
        assert(forall|k: int| 0 <= k < a@.len() ==> a@[k] == line@[k]);
    }
    Some((a, b))
}

} // verus!
