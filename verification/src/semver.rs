//! Semver core parsing and comparison: `MAJOR`, `MAJOR.MINOR` or
//! `MAJOR.MINOR.PATCH` (missing parts are 0); a trailing pre-release or build
//! part (`-rc1`, `+meta`) is ignored, so versions compare on their numeric core.
use vstd::prelude::*;

use crate::text::{chars_of, is_whitespace_char};

verus! {

/// A version's numeric core: major, minor, patch.
#[derive(Debug, PartialEq, Eq, PartialOrd, Ord, Clone, Copy)]
pub struct Version(pub u64, pub u64, pub u64);

/// The characters that start a pre-release or build part.
pub open spec fn is_suffix_mark(c: char) -> bool {
    c == '-' || c == '+'
}

/// The length of the part of `t` before its first `-` or `+`.
pub open spec fn core_len(t: Seq<char>) -> nat
    decreases t.len(),
{
    if t.len() == 0 || is_suffix_mark(t[0]) {
        0
    } else {
        1 + core_len(t.drop_first())
    }
}

/// The numeric core of a version text: the trimmed text up to its first
/// `-` or `+`.
pub open spec fn version_core(s: Seq<char>) -> Seq<char> {
    let t = crate::text::trim(s);
    t.take(core_len(t) as int)
}

/// `s` split at every `.` (a text without `.` is one component).
pub open spec fn components(s: Seq<char>) -> Seq<Seq<char>>
    decreases s.len(),
{
    if s.len() == 0 {
        seq![Seq::<char>::empty()]
    } else {
        let p = components(s.drop_last());
        if s.last() == '.' {
            p.push(Seq::<char>::empty())
        } else {
            p.update(p.len() - 1, p.last().push(s.last()))
        }
    }
}

pub open spec fn is_digit(c: char) -> bool {
    '0' <= c && c <= '9'
}

pub open spec fn digit_value(c: char) -> int {
    c as int - '0' as int
}

/// The number that a text of decimal digits denotes.
pub open spec fn decimal_value(s: Seq<char>) -> int
    decreases s.len(),
{
    if s.len() == 0 {
        0
    } else {
        decimal_value(s.drop_last()) * 10 + digit_value(s.last())
    }
}

pub open spec fn all_digits(s: Seq<char>) -> bool {
    forall|i: int| 0 <= i < s.len() ==> #[trigger] is_digit(s[i])
}

/// A component read as a `u64`: one or more ASCII digits whose value fits.
pub open spec fn decimal_u64(s: Seq<char>) -> Option<u64> {
    if s.len() > 0 && all_digits(s) && decimal_value(s) <= u64::MAX {
        Some(decimal_value(s) as u64)
    } else {
        None
    }
}

/// Component `i` read as a number, 0 where there is no such component.
pub open spec fn part_or_zero(parts: Seq<Seq<char>>, i: int) -> Option<u64> {
    if i < parts.len() {
        decimal_u64(parts[i])
    } else {
        Some(0)
    }
}

/// The version a text denotes, if any: its core has at most three
/// dot-separated components, each a decimal `u64`; missing minor and patch
/// parts are 0.
pub open spec fn parsed_version(s: Seq<char>) -> Option<Version> {
    let parts = components(version_core(s));
    if parts.len() > 3 {
        None
    } else {
        match (decimal_u64(parts[0]), part_or_zero(parts, 1), part_or_zero(parts, 2)) {
            (Some(a), Some(b), Some(c)) => Some(Version(a, b, c)),
            _ => None,
        }
    }
}

/// `a` comes strictly before `b`: lexicographic on major, minor, patch.
pub open spec fn version_lt(a: Version, b: Version) -> bool {
    ||| a.0 < b.0
    ||| (a.0 == b.0 && a.1 < b.1)
    ||| (a.0 == b.0 && a.1 == b.1 && a.2 < b.2)
}

/// Whether `v` is strictly below the version `threshold` denotes; false when
/// the threshold is empty or does not parse (the threshold is disabled).
pub open spec fn is_below(v: Version, threshold: Seq<char>) -> bool {
    match parsed_version(threshold) {
        Some(t) => version_lt(v, t),
        None => false,
    }
}

proof fn lemma_decimal_nonneg(s: Seq<char>)
    requires
        all_digits(s),
    ensures
        decimal_value(s) >= 0,
    decreases s.len(),
{
    if s.len() > 0 {
        assert(is_digit(s[s.len() - 1]));
        lemma_decimal_nonneg(s.drop_last());
    }
}

/// Extending a digit text never lowers its value.
proof fn lemma_decimal_prefix_le(s: Seq<char>, i: int)
    requires
        all_digits(s),
        0 <= i <= s.len(),
    ensures
        decimal_value(s.take(i)) <= decimal_value(s),
    decreases s.len() - i,
{
    if i < s.len() {
        lemma_decimal_prefix_le(s, i + 1);
        assert(s.take(i + 1).drop_last() =~= s.take(i));
        assert(is_digit(s[i]));
        assert(all_digits(s.take(i))) by {
            assert forall|j: int| 0 <= j < s.take(i).len() implies #[trigger] is_digit(s.take(i)[j]) by {
                assert(s.take(i)[j] == s[j]);
            }
        }
        lemma_decimal_nonneg(s.take(i));
    } else {
        assert(s.take(i) =~= s);
    }
}

/// A text of ASCII digits read as a `u64`; `None` when it is empty, holds
/// another character, or its value does not fit.
fn parse_decimal(s: &Vec<char>) -> (r: Option<u64>)
    ensures
        r == decimal_u64(s@),
{
    let n = s.len();
    if n == 0 {
        return None;
    }
    let mut acc: u64 = 0;
    let mut i: usize = 0;
    while i < n
        invariant
            n == s@.len(),
            i <= n,
            forall|j: int| 0 <= j < i ==> #[trigger] is_digit(s@[j]),
            acc == decimal_value(s@.take(i as int)),
        decreases n - i,
    {
        let c = s[i];
        if !('0' <= c && c <= '9') {
            assert(!all_digits(s@)) by {
                assert(!is_digit(s@[i as int]));
            }
            return None;
        }
        let d: u64 = ((c as u32) - ('0' as u32)) as u64;
        assert(s@.take(i + 1).drop_last() =~= s@.take(i as int));
        assert(s@.take(i + 1).last() == c);
        match acc.checked_mul(10) {
            Some(m) => match m.checked_add(d) {
                Some(a) => {
                    acc = a;
                },
                None => {
                    proof {
                        lemma_no_fit(s@, i as int);
                    }
                    return None;
                },
            },
            None => {
                proof {
                    lemma_no_fit(s@, i as int);
                }
                return None;
            },
        }
        i = i + 1;
    }
    assert(s@.take(n as int) =~= s@);
    assert(all_digits(s@));
    proof {
        lemma_decimal_nonneg(s@);
    }
    Some(acc)
}

/// If a prefix of a text is already too large, the text is no `u64`.
proof fn lemma_no_fit(s: Seq<char>, i: int)
    requires
        0 <= i < s.len(),
        forall|j: int| 0 <= j <= i ==> #[trigger] is_digit(s[j]),
        decimal_value(s.take(i + 1)) > u64::MAX,
    ensures
        decimal_u64(s) is None,
{
    if all_digits(s) {
        lemma_decimal_prefix_le(s, i + 1);
    }
}

/// The bounds of the trimmed text inside `v`.
fn trimmed_bounds(v: &Vec<char>) -> (r: (usize, usize))
    ensures
        r.0 <= r.1 <= v@.len(),
        v@.subrange(r.0 as int, r.1 as int) == crate::text::trim(v@),
{
    let n = v.len();
    let mut i: usize = 0;
    assert(v@.skip(0) =~= v@);
    while i < n && is_whitespace_char(v[i])
        invariant
            n == v@.len(),
            i <= n,
            crate::text::trim_front(v@) == crate::text::trim_front(v@.skip(i as int)),
        decreases n - i,
    {
        proof {
            crate::text::lemma_trim_front_step(v@, i as int);
        }
        i = i + 1;
    }
    let ghost t0 = v@.skip(i as int);
    assert(crate::text::trim_front(t0) == t0);
    let mut j: usize = n;
    assert(t0.take((n - i) as int) =~= t0);
    while j > i && is_whitespace_char(v[j - 1])
        invariant
            n == v@.len(),
            i <= j <= n,
            t0 == v@.skip(i as int),
            crate::text::trim_back(t0) == crate::text::trim_back(t0.take(j - i)),
        decreases j,
    {
        proof {
            assert(t0[j - i - 1] == v@[j - 1]);
            crate::text::lemma_trim_back_step(t0, j - i);
        }
        j = j - 1;
    }
    assert(crate::text::trim_back(t0.take(j - i)) == t0.take(j - i));
    assert(t0.take(j - i) =~= v@.subrange(i as int, j as int));
    (i, j)
}

/// Every text has at least one component.
proof fn lemma_components_nonempty(s: Seq<char>)
    ensures
        components(s).len() >= 1,
    decreases s.len(),
{
    if s.len() > 0 {
        lemma_components_nonempty(s.drop_last());
    }
}

/// `core_len` is the position of the first `-` or `+`, or the length.
proof fn lemma_core_len(t: Seq<char>, m: int)
    requires
        0 <= m <= t.len(),
        forall|k: int| 0 <= k < m ==> !#[trigger] is_suffix_mark(t[k]),
        m == t.len() || is_suffix_mark(t[m]),
    ensures
        core_len(t) == m,
    decreases m,
{
    if m > 0 {
        assert(!is_suffix_mark(t[0]));
        assert forall|k: int| 0 <= k < m - 1 implies !#[trigger] is_suffix_mark(t.drop_first()[k]) by {
            assert(t.drop_first()[k] == t[k + 1]);
        }
        lemma_core_len(t.drop_first(), m - 1);
    }
}

/// The components of `v@.subrange(lo, hi)`.
fn split_components(v: &Vec<char>, lo: usize, hi: usize) -> (r: Vec<Vec<char>>)
    requires
        lo <= hi <= v@.len(),
    ensures
        r@.len() == components(v@.subrange(lo as int, hi as int)).len(),
        forall|j: int| 0 <= j < r@.len() ==> #[trigger] r@[j]@ == components(v@.subrange(lo as int, hi as int))[j],
{
    let mut parts: Vec<Vec<char>> = Vec::new();
    let mut cur: Vec<char> = Vec::new();
    let mut i: usize = lo;
    assert(v@.subrange(lo as int, lo as int) =~= Seq::<char>::empty());
    while i < hi
        invariant
            lo <= i <= hi <= v@.len(),
            parts@.len() + 1 == components(v@.subrange(lo as int, i as int)).len(),
            forall|j: int| 0 <= j < parts@.len() ==> #[trigger] parts@[j]@ == components(v@.subrange(lo as int, i as int))[j],
            cur@ == components(v@.subrange(lo as int, i as int)).last(),
        decreases hi - i,
    {
        let ghost prev = v@.subrange(lo as int, i as int);
        let ghost next = v@.subrange(lo as int, i + 1);
        assert(next.drop_last() =~= prev);
        assert(next.last() == v@[i as int]);
        let c = v[i];
        if c == '.' {
            let done = cur;
            parts.push(done);
            cur = Vec::new();
        } else {
            cur.push(c);
        }
        i = i + 1;
        assert(components(next) == components(v@.subrange(lo as int, i as int)));
    }
    let ghost cs = components(v@.subrange(lo as int, hi as int));
    parts.push(cur);
    assert(parts@.len() == cs.len());
    parts
}

/// Parse a semver core `X`, `X.Y` or `X.Y.Z` (missing parts default to 0),
/// ignoring surrounding whitespace and a pre-release or build part.
/// Returns `None` if the numeric core is malformed.
pub fn parse(v: &str) -> (r: Option<Version>)
    ensures
        r == parsed_version(v@),
{
    let chars = chars_of(v);
    let (lo, hi) = trimmed_bounds(&chars);
    let ghost t = crate::text::trim(v@);
    let mut k: usize = lo;
    while k < hi && !(chars[k] == '-' || chars[k] == '+')
        invariant
            lo <= k <= hi <= chars@.len(),
            t == chars@.subrange(lo as int, hi as int),
            forall|x: int| 0 <= x < k - lo ==> !#[trigger] is_suffix_mark(t[x]),
        decreases hi - k,
    {
        assert(t[k - lo] == chars@[k as int]);
        k = k + 1;
    }
    proof {
        if k < hi {
            assert(t[k - lo] == chars@[k as int]);
        }
        lemma_core_len(t, k - lo);
        assert(t.take(k - lo) =~= chars@.subrange(lo as int, k as int));
    }
    let parts = split_components(&chars, lo, k);
    let ghost ps = components(version_core(v@));
    proof {
        assert(version_core(v@) == chars@.subrange(lo as int, k as int));
        lemma_components_nonempty(version_core(v@));
        assert(parts@[0]@ == ps[0]);
        if parts@.len() > 1 {
            assert(parts@[1]@ == ps[1]);
        }
        if parts@.len() > 2 {
            assert(parts@[2]@ == ps[2]);
        }
    }
    if parts.len() > 3 {
        return None;
    }
    let major = match parse_decimal(&parts[0]) {
        Some(x) => x,
        None => return None,
    };
    let minor = if parts.len() > 1 {
        match parse_decimal(&parts[1]) {
            Some(x) => x,
            None => return None,
        }
    } else {
        0
    };
    let patch = if parts.len() > 2 {
        match parse_decimal(&parts[2]) {
            Some(x) => x,
            None => return None,
        }
    } else {
        0
    };
    Some(Version(major, minor, patch))
}

/// True if `v` is strictly below `threshold` (parsed). A threshold that is
/// empty or unparseable yields false (disabled).
pub fn below(v: &Version, threshold: &str) -> (r: bool)
    ensures
        r == is_below(*v, threshold@),
{
    match parse(threshold) {
        Some(t) => v.0 < t.0 || (v.0 == t.0 && v.1 < t.1) || (v.0 == t.0 && v.1 == t.1 && v.2 < t.2),
        None => false,
    }
}

/// Versions are totally ordered by `version_lt`: it is irreflexive and
/// transitive, and of two versions exactly one is below the other unless they
/// are equal.
pub proof fn lemma_version_order(a: Version, b: Version, c: Version)
    ensures
        !version_lt(a, a),
        version_lt(a, b) && version_lt(b, c) ==> version_lt(a, c),
        version_lt(a, b) || a == b || version_lt(b, a),
        !(version_lt(a, b) && version_lt(b, a)),
{
}

/// "Below" is strict: a version is never below a threshold that denotes
/// that very version.
pub proof fn lemma_below_is_strict(v: Version, threshold: Seq<char>)
    requires
        parsed_version(threshold) == Some(v),
    ensures
        !is_below(v, threshold),
{
}

/// A trailing pre-release or build part is ignored: a core without spaces,
/// `-` or `+` followed by `-...` or `+...` denotes what the core alone denotes.
pub proof fn lemma_suffix_ignored(core: Seq<char>, suffix: Seq<char>)
    requires
        forall|i: int| 0 <= i < core.len() ==> !crate::text::is_ws(#[trigger] core[i]) && !is_suffix_mark(core[i]),
        suffix.len() > 0,
        is_suffix_mark(suffix[0]),
    ensures
        parsed_version(core + suffix) == parsed_version(core),
{
    let x = core + suffix;
    assert(x[core.len() as int] == suffix[0]);
    // Trimming `x` keeps the core and the mark that follows it.
    if core.len() > 0 {
        assert(x[0] == core[0]);
    }
    assert(crate::text::trim_front(x) == x);
    let k = lemma_trim_back_is_prefix(x);
    assert(crate::text::trim(x) == x.take(k));
    let t = x.take(k);
    assert forall|i: int| 0 <= i < core.len() implies !#[trigger] is_suffix_mark(t[i]) by {
        assert(t[i] == core[i]);
    }
    assert(t[core.len() as int] == suffix[0]);
    lemma_core_len(t, core.len() as int);
    assert(version_core(x) =~= core);
    // The core alone trims to itself and has no mark.
    if core.len() > 0 {
        assert(!crate::text::is_ws(core[0]));
    }
    assert(crate::text::trim_front(core) == core);
    let k2 = lemma_trim_back_is_prefix(core);
    if k2 < core.len() {
        assert(!crate::text::is_ws(core[core.len() - 1]));
    }
    assert(core.take(k2) =~= core);
    assert(crate::text::trim(core) == core);
    assert forall|i: int| 0 <= i < core.len() implies !#[trigger] is_suffix_mark(core[i]) by {}
    lemma_core_len(core, core.len() as int);
    assert(version_core(core) =~= core);
}

/// Trimming the back keeps a prefix that reaches past every
/// non-whitespace character.
proof fn lemma_trim_back_is_prefix(s: Seq<char>) -> (k: int)
    ensures
        0 <= k <= s.len(),
        crate::text::trim_back(s) == s.take(k),
        forall|j: int| 0 <= j < s.len() && !crate::text::is_ws(#[trigger] s[j]) ==> j < k,
    decreases s.len(),
{
    if s.len() > 0 && crate::text::is_ws(s.last()) {
        let k = lemma_trim_back_is_prefix(s.drop_last());
        assert(s.drop_last().take(k) =~= s.take(k));
        assert forall|j: int| 0 <= j < s.len() && !crate::text::is_ws(#[trigger] s[j]) implies j < k by {
            if j < s.len() - 1 {
                assert(s.drop_last()[j] == s[j]);
            }
        }
        k
    } else {
        assert(s.take(s.len() as int) =~= s);
        s.len() as int
    }
}

/// A blank text denotes no version: a text that parses has a character that
/// is not whitespace.
pub proof fn lemma_parsed_not_blank(s: Seq<char>)
    requires
        parsed_version(s) is Some,
    ensures
        !crate::text::is_blank(s),
{
    if crate::text::is_blank(s) {
        crate::text::lemma_trim_empty_iff_blank(s);
        let t = crate::text::trim(s);
        assert(t.take(core_len(t) as int) =~= Seq::<char>::empty());
        assert(Seq::<char>::empty().len() == 0);
        assert(components(Seq::<char>::empty())[0] =~= Seq::<char>::empty());
    }
}

} // verus!
