//! Verified string helpers: prefix and suffix tests, pattern substitution,
//! character sanitising, decimal formatting, and line splitting.

use vstd::prelude::*;
use vstd::string::StrSliceExecFns;
use vstd::string::StringExecFns;

verus! {

/// Relies on String::push: appends exactly the one character at the end.
#[verifier::external_body]
pub fn push_char(s: &mut String, c: char)
    ensures
        final(s)@ == old(s)@.push(c),
{
    s.push(c);
}

pub open spec fn spec_starts_with(s: Seq<char>, p: Seq<char>) -> bool {
    s.len() >= p.len() && s.subrange(0, p.len() as int) == p
}

pub open spec fn spec_ends_with(s: Seq<char>, p: Seq<char>) -> bool {
    s.len() >= p.len() && s.subrange(s.len() - p.len(), s.len() as int) == p
}

pub fn starts_with(s: &str, p: &str) -> (r: bool)
    ensures
        r == spec_starts_with(s@, p@),
{
    let n: usize = s.unicode_len();
    let m: usize = p.unicode_len();
    if n < m {
        return false;
    }
    let mut i: usize = 0;
    while i < m
        invariant
            0 <= i <= m,
            m <= n,
            n == s@.len(),
            m == p@.len(),
            forall|j: int| 0 <= j < i ==> s@[j] == p@[j],
        decreases m - i,
    {
        if s.get_char(i) != p.get_char(i) {
            assert(!spec_starts_with(s@, p@)) by {
                assert(s@.subrange(0, m as int)[i as int] == s@[i as int]);
            }
            return false;
        }
        i += 1;
    }
    assert(s@.subrange(0, m as int) =~= p@);
    true
}

pub fn ends_with(s: &str, p: &str) -> (r: bool)
    ensures
        r == spec_ends_with(s@, p@),
{
    let n: usize = s.unicode_len();
    let m: usize = p.unicode_len();
    if n < m {
        return false;
    }
    let off: usize = n - m;
    let mut i: usize = 0;
    while i < m
        invariant
            0 <= i <= m,
            off == n - m,
            m <= n,
            n == s@.len(),
            m == p@.len(),
            forall|j: int| 0 <= j < i ==> s@[off + j] == p@[j],
        decreases m - i,
    {
        if s.get_char(off + i) != p.get_char(i) {
            assert(!spec_ends_with(s@, p@)) by {
                assert(s@.subrange(n - m, n as int)[i as int] == s@[off + i]);
            }
            return false;
        }
        i += 1;
    }
    assert(s@.subrange(n - m, n as int) =~= p@);
    true
}

/// Every occurrence of `pat` in `s` replaced by `rep`, scanning left to
/// right; replaced text is not rescanned.
pub open spec fn spec_replace(s: Seq<char>, pat: Seq<char>, rep: Seq<char>) -> Seq<char>
    decreases s.len(),
{
    if pat.len() == 0 {
        s
    } else if s.len() >= pat.len() && s.subrange(0, pat.len() as int) == pat {
        rep + spec_replace(s.skip(pat.len() as int), pat, rep)
    } else if s.len() == 0 {
        s
    } else {
        seq![s[0]] + spec_replace(s.skip(1), pat, rep)
    }
}

/// Whether `pat` occurs in `s` starting at character position `i`.
fn match_at(s: &str, pat: &str, i: usize) -> (r: bool)
    requires
        i <= s@.len(),
    ensures
        r == (i + pat@.len() <= s@.len() && (forall|k: int|
            0 <= k < pat@.len() ==> s@[i + k] == pat@[k])),
{
    let n: usize = s.unicode_len();
    let m: usize = pat.unicode_len();
    if m > n - i {
        return false;
    }
    let mut j: usize = 0;
    while j < m
        invariant
            0 <= j <= m,
            i + m <= n,
            n == s@.len(),
            m == pat@.len(),
            forall|k: int| 0 <= k < j ==> s@[i + k] == pat@[k],
        decreases m - j,
    {
        if s.get_char(i + j) != pat.get_char(j) {
            assert(s@[i + j as int] != pat@[j as int]);
            return false;
        }
        j += 1;
    }
    true
}

pub fn replace_all(s: &str, pat: &str, rep: &str) -> (r: String)
    requires
        pat@.len() >= 1,
    ensures
        r@ == spec_replace(s@, pat@, rep@),
{
    let n: usize = s.unicode_len();
    let m: usize = pat.unicode_len();
    let mut out: String = String::new();
    let mut i: usize = 0;
    assert(s@.skip(0) =~= s@);
    assert(out@ + spec_replace(s@, pat@, rep@) =~= spec_replace(s@, pat@, rep@));
    while i < n
        invariant
            0 <= i <= n,
            n == s@.len(),
            m == pat@.len(),
            1 <= m,
            spec_replace(s@, pat@, rep@) == out@ + spec_replace(s@.skip(i as int), pat@, rep@),
        decreases n - i,
    {
        let ghost tail = s@.skip(i as int);
        let matched: bool = match_at(s, pat, i);
        if matched {
            proof {
                assert(tail.len() >= m);
                assert forall|k: int| 0 <= k < m implies tail.subrange(0, m as int)[k]
                    == pat@[k] by {
                    assert(tail[k] == s@[i + k]);
                }
                assert(tail.subrange(0, m as int) =~= pat@);
                assert(spec_replace(tail, pat@, rep@) == rep@ + spec_replace(
                    tail.skip(m as int),
                    pat@,
                    rep@,
                ));
                assert(tail.skip(m as int) =~= s@.skip(i + m));
            }
            out.append(rep);
            i += m;
        } else {
            proof {
                if tail.len() >= m && tail.subrange(0, m as int) == pat@ {
                    assert forall|k: int| 0 <= k < m implies s@[i + k] == pat@[k] by {
                        assert(tail.subrange(0, m as int)[k] == tail[k]);
                        assert(tail[k] == s@[i + k]);
                    }
                    assert(false);
                }
                assert(spec_replace(tail, pat@, rep@) == seq![tail[0]] + spec_replace(
                    tail.skip(1),
                    pat@,
                    rep@,
                ));
                assert(tail.skip(1) =~= s@.skip(i + 1));
            }
            let c: &str = s.substring_char(i, i + 1);
            assert(c@ =~= seq![s@[i as int]]);
            out.append(c);
            i += 1;
        }
    }
    proof {
        assert(s@.skip(n as int) =~= Seq::<char>::empty());
        assert(spec_replace(Seq::<char>::empty(), pat@, rep@) =~= Seq::<char>::empty());
        assert(out@ + Seq::<char>::empty() =~= out@);
    }
    out
}

/// Spaces and colons become underscores; other characters are unchanged.
pub open spec fn sanitized_char(c: char) -> char {
    if c == ' ' || c == ':' {
        '_'
    } else {
        c
    }
}

pub open spec fn spec_sanitize(s: Seq<char>) -> Seq<char> {
    s.map(|i: int, c: char| sanitized_char(c))
}

/// The directory-name form of a configuration name.
pub fn sanitize_name(s: &str) -> (r: String)
    ensures
        r@ == spec_sanitize(s@),
{
    let n: usize = s.unicode_len();
    let mut out: String = String::new();
    let mut i: usize = 0;
    assert(out@ =~= spec_sanitize(s@.take(0)));
    while i < n
        invariant
            0 <= i <= n,
            n == s@.len(),
            out@ == spec_sanitize(s@.take(i as int)),
        decreases n - i,
    {
        let c: char = s.get_char(i);
        if c == ' ' || c == ':' {
            push_char(&mut out, '_');
        } else {
            push_char(&mut out, c);
        }
        proof {
            assert(spec_sanitize(s@.take(i + 1)) =~= spec_sanitize(s@.take(i as int)).push(
                sanitized_char(s@[i as int]),
            ));
        }
        i += 1;
    }
    assert(s@.take(n as int) =~= s@);
    out
}

/// The string with every trailing '/' removed.
pub open spec fn spec_trim_trailing_slash(s: Seq<char>) -> Seq<char>
    decreases s.len(),
{
    if s.len() > 0 && s[s.len() - 1] == '/' {
        spec_trim_trailing_slash(s.drop_last())
    } else {
        s
    }
}

pub fn trim_trailing_slash(s: &str) -> (r: &str)
    ensures
        r@ == spec_trim_trailing_slash(s@),
{
    let n: usize = s.unicode_len();
    let mut k: usize = n;
    assert(s@.take(n as int) =~= s@);
    while k > 0 && s.get_char(k - 1) == '/'
        invariant
            0 <= k <= n,
            n == s@.len(),
            spec_trim_trailing_slash(s@) == spec_trim_trailing_slash(s@.take(k as int)),
        decreases k,
    {
        proof {
            assert(s@.take(k as int).drop_last() =~= s@.take(k - 1));
        }
        k -= 1;
    }
    let r: &str = s.substring_char(0, k);
    assert(r@ =~= s@.take(k as int));
    r
}

/// The decimal digit character for a value below ten.
pub open spec fn digit_char(d: int) -> char {
    if d == 0 {
        '0'
    } else if d == 1 {
        '1'
    } else if d == 2 {
        '2'
    } else if d == 3 {
        '3'
    } else if d == 4 {
        '4'
    } else if d == 5 {
        '5'
    } else if d == 6 {
        '6'
    } else if d == 7 {
        '7'
    } else if d == 8 {
        '8'
    } else {
        '9'
    }
}

/// The usual decimal rendering of a non-negative integer.
pub open spec fn spec_u64_string(n: int) -> Seq<char>
    decreases n,
{
    if n < 10 {
        seq![digit_char(n)]
    } else {
        spec_u64_string(n / 10).push(digit_char(n % 10))
    }
}

pub fn u64_to_string(n: u64) -> (r: String)
    ensures
        r@ == spec_u64_string(n as int),
    decreases n,
{
    let digits: &str = "0123456789";
    proof {
        reveal_strlit("0123456789");
    }
    let d: usize = (n % 10) as usize;
    let ds: &str = digits.substring_ascii(d, d + 1);
    assert(ds@ =~= seq![digit_char(n as int % 10)]);
    if n < 10 {
        ds.to_owned()
    } else {
        let mut prefix = u64_to_string(n / 10);
        proof {
            assert(spec_u64_string(n as int) == spec_u64_string(n as int / 10).push(
                digit_char(n as int % 10),
            ));
            assert(spec_u64_string(n as int / 10) + seq![digit_char(n as int % 10)]
                =~= spec_u64_string(n as int / 10).push(digit_char(n as int % 10)));
        }
        prefix.append(ds);
        prefix
    }
}

/// Whether `sub` occurs anywhere inside `s`.
pub open spec fn spec_contains_sub(s: Seq<char>, sub: Seq<char>) -> bool {
    exists|i: int|
        0 <= i <= s.len() - sub.len() && #[trigger] s.subrange(i, i + sub.len()) == sub
}

pub fn contains_sub(s: &str, sub: &str) -> (r: bool)
    ensures
        r == spec_contains_sub(s@, sub@),
{
    let n: usize = s.unicode_len();
    let m: usize = sub.unicode_len();
    if m > n {
        proof {
            if spec_contains_sub(s@, sub@) {
                let i = choose|i: int|
                    0 <= i <= s@.len() - sub@.len() && #[trigger] s@.subrange(i, i + sub@.len())
                        == sub@;
                assert(false);
            }
        }
        return false;
    }
    let mut i: usize = 0;
    while i <= n - m
        invariant
            0 <= i <= n - m + 1,
            m <= n,
            n == s@.len(),
            m == sub@.len(),
            forall|j: int| 0 <= j < i ==> #[trigger] s@.subrange(j, j + sub@.len()) != sub@,
        decreases n - m + 1 - i,
    {
        if match_at(s, sub, i) {
            proof {
                assert forall|k: int| 0 <= k < m implies s@.subrange(i as int, i + m)[k]
                    == sub@[k] by {
                    assert(s@.subrange(i as int, i + m)[k] == s@[i + k]);
                }
                assert(s@.subrange(i as int, i + m) =~= sub@);
            }
            return true;
        }
        proof {
            if s@.subrange(i as int, i + m) == sub@ {
                assert forall|k: int| 0 <= k < m implies s@[i + k] == sub@[k] by {
                    assert(s@.subrange(i as int, i + m)[k] == s@[i + k]);
                }
                assert(false);
            }
        }
        i += 1;
    }
    proof {
        if spec_contains_sub(s@, sub@) {
            let j = choose|j: int|
                0 <= j <= s@.len() - sub@.len() && #[trigger] s@.subrange(j, j + sub@.len())
                    == sub@;
            assert(false);
        }
    }
    false
}

/// The characters after the last '/': the base name of a path, empty for
/// a path that ends in '/'.
pub open spec fn spec_base_name(s: Seq<char>) -> Seq<char>
    decreases s.len(),
{
    if s.len() == 0 {
        s
    } else if s.last() == '/' {
        Seq::empty()
    } else {
        spec_base_name(s.drop_last()).push(s.last())
    }
}

proof fn lemma_base_name_no_slash(s: Seq<char>)
    requires
        forall|j: int| 0 <= j < s.len() ==> s[j] != '/',
    ensures
        spec_base_name(s) == s,
    decreases s.len(),
{
    if s.len() > 0 {
        lemma_base_name_no_slash(s.drop_last());
        assert(spec_base_name(s.drop_last()).push(s.last()) =~= s);
    }
}

proof fn lemma_base_name_after_slash(s: Seq<char>, k: int)
    requires
        0 <= k < s.len(),
        s[k] == '/',
        forall|j: int| k < j < s.len() ==> s[j] != '/',
    ensures
        spec_base_name(s) == s.subrange(k + 1, s.len() as int),
    decreases s.len(),
{
    if k == s.len() - 1 {
        assert(s.subrange(k + 1, s.len() as int) =~= Seq::<char>::empty());
    } else {
        lemma_base_name_after_slash(s.drop_last(), k);
        assert(s.drop_last().subrange(k + 1, s.drop_last().len() as int) =~= s.subrange(
            k + 1,
            s.len() - 1,
        ));
        assert(s.subrange(k + 1, s.len() - 1).push(s.last()) =~= s.subrange(
            k + 1,
            s.len() as int,
        ));
    }
}

/// The base name of a path: what stands after the last '/'.
pub fn base_name(s: &str) -> (r: String)
    ensures
        r@ == spec_base_name(s@),
{
    let n: usize = s.unicode_len();
    let mut k: usize = n;
    while k > 0 && s.get_char(k - 1) != '/'
        invariant
            0 <= k <= n,
            n == s@.len(),
            forall|j: int| k <= j < n ==> s@[j] != '/',
        decreases k,
    {
        k -= 1;
    }
    proof {
        if k == 0 {
            lemma_base_name_no_slash(s@);
        } else {
            lemma_base_name_after_slash(s@, k - 1);
        }
    }
    let r: &str = s.substring_char(k, n);
    proof {
        assert(r@ =~= s@.subrange(k as int, n as int));
        if k == 0 {
            assert(s@.subrange(0, n as int) =~= s@);
        }
    }
    r.to_owned()
}

/// The string with a suffix it is known to end in removed.
pub fn strip_suffix<'a>(s: &'a str, suffix: &str) -> (r: &'a str)
    requires
        spec_ends_with(s@, suffix@),
    ensures
        r@ == s@.take(s@.len() - suffix@.len()),
{
    let n: usize = s.unicode_len();
    let m: usize = suffix.unicode_len();
    let r: &str = s.substring_char(0, n - m);
    assert(r@ =~= s@.take(s@.len() - suffix@.len()));
    r
}

/// An element-wise copy of a vector of strings.
pub fn clone_string_vec(v: &Vec<String>) -> (r: Vec<String>)
    ensures
        r@ == v@,
{
    let n: usize = v.len();
    let mut r: Vec<String> = Vec::new();
    let mut i: usize = 0;
    while i < n
        invariant
            0 <= i <= n,
            n == v@.len(),
            r@.len() == i,
            forall|j: int| 0 <= j < i ==> r@[j] == v@[j],
        decreases n - i,
    {
        r.push(v[i].clone());
        i += 1;
    }
    assert(r@ =~= v@);
    r
}

/// The characters before the first newline, or `None` for an empty string.
pub open spec fn spec_line_len(s: Seq<char>) -> int
    decreases s.len(),
{
    if s.len() == 0 {
        0
    } else if s[0] == '\n' {
        0
    } else {
        1 + spec_line_len(s.skip(1))
    }
}

pub open spec fn spec_first_line(s: Seq<char>) -> Option<Seq<char>> {
    if s.len() == 0 {
        None
    } else {
        Some(s.take(spec_line_len(s)))
    }
}

pub fn first_line(s: &str) -> (r: Option<String>)
    ensures
        r is Some <==> spec_first_line(s@) is Some,
        r matches Some(line) ==> spec_first_line(s@) == Some(line@),
{
    let n: usize = s.unicode_len();
    if n == 0 {
        return None;
    }
    let mut i: usize = 0;
    assert(s@.skip(0) =~= s@);
    while i < n && s.get_char(i) != '\n'
        invariant
            0 <= i <= n,
            n == s@.len(),
            spec_line_len(s@) == i + spec_line_len(s@.skip(i as int)),
            i < n ==> s@.skip(i as int).len() > 0,
        decreases n - i,
    {
        proof {
            assert(s@.skip(i as int)[0] == s@[i as int]);
            assert(s@.skip(i as int).skip(1) =~= s@.skip(i + 1));
        }
        i += 1;
    }
    proof {
        if i < n {
            assert(s@.skip(i as int)[0] == s@[i as int]);
            assert(spec_line_len(s@.skip(i as int)) == 0);
        } else {
            assert(s@.skip(i as int) =~= Seq::<char>::empty());
        }
        assert(spec_line_len(s@) == i);
    }
    let line: &str = s.substring_char(0, i);
    assert(line@ =~= s@.take(i as int));
    Some(line.to_owned())
}

} // verus!
