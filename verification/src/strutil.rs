//! Verified helpers for working with strings as character sequences:
//! conversion between `String` and `Vec<char>`, ASCII lowercasing,
//! trimming, and lexicographic comparison.

use vstd::prelude::*;

verus! {

/// True when the character counts as whitespace for trimming.
///
/// Whitespace handling here is deliberately ASCII-only: the sources
/// this library reads are ASCII, and keeping the character classes
/// finite keeps every string function exactly specified.
pub open spec fn spec_is_space(c: char) -> bool {
    c == ' ' || c == '\t' || c == '\n' || c == '\r' || c == '\u{b}' || c == '\u{c}'
}

/// Executable counterpart of [`spec_is_space`].
pub fn is_space(c: char) -> (r: bool)
    ensures
        r == spec_is_space(c),
{
    c == ' ' || c == '\t' || c == '\n' || c == '\r' || c == '\u{b}' || c == '\u{c}'
}

/// ASCII lowercasing of one character; characters outside `A`..`Z`
/// pass through, so lowercasing is ASCII-only by design.
pub open spec fn spec_lower_char(c: char) -> char {
    if 'A' <= c && c <= 'Z' {
        ((c as u32) + 32) as char
    } else {
        c
    }
}

/// ASCII lowercasing of a character sequence.
pub open spec fn spec_lower(s: Seq<char>) -> Seq<char> {
    s.map_values(|c: char| spec_lower_char(c))
}

/// Executable ASCII lowercasing of one character.
pub fn lower_char(c: char) -> (r: char)
    ensures
        r == spec_lower_char(c),
{
    match c {
        'A' => 'a',
        'B' => 'b',
        'C' => 'c',
        'D' => 'd',
        'E' => 'e',
        'F' => 'f',
        'G' => 'g',
        'H' => 'h',
        'I' => 'i',
        'J' => 'j',
        'K' => 'k',
        'L' => 'l',
        'M' => 'm',
        'N' => 'n',
        'O' => 'o',
        'P' => 'p',
        'Q' => 'q',
        'R' => 'r',
        'S' => 's',
        'T' => 't',
        'U' => 'u',
        'V' => 'v',
        'W' => 'w',
        'X' => 'x',
        'Y' => 'y',
        'Z' => 'z',
        _ => c,
    }
}

/// Converts a string slice into the vector of its characters.
pub fn chars_of(s: &str) -> (r: Vec<char>)
    ensures
        r@ == s@,
{
    let n: usize = s.unicode_len();
    let mut r: Vec<char> = Vec::new();
    let mut i: usize = 0;
    while i < n
        invariant
            n == s@.len(),
            i <= n,
            r@ == s@.take(i as int),
        decreases n - i,
    {
        let c = s.get_char(i);
        r.push(c);
        proof {
            assert(s@.take(i + 1) =~= s@.take(i as int).push(s@[i as int]));
        }
        i = i + 1;
    }
    proof {
        assert(s@.take(n as int) =~= s@);
    }
    r
}

/// Relies on `String`'s `FromIterator` impl: collecting the characters of
/// `v` yields the string whose characters are exactly `v`.
#[verifier::external_body]
pub fn string_from_chars(v: &Vec<char>) -> (r: String)
    ensures
        r@ == v@,
{
    v.iter().collect()
}

/// Equality of two string slices, decided through owned copies so the
/// result is pinned to the views.
pub fn str_eq(a: &str, b: &str) -> (r: bool)
    ensures
        r == (a@ == b@),
{
    let oa = a.to_owned();
    let ob = b.to_owned();
    oa == ob
}

/// Drops the longest prefix of characters satisfying `pred`.
pub open spec fn spec_strip_while(s: Seq<char>, pred: spec_fn(char) -> bool) -> Seq<char>
    decreases s.len(),
{
    if s.len() > 0 && pred(s[0]) {
        spec_strip_while(s.skip(1), pred)
    } else {
        s
    }
}

/// Dropping a satisfying prefix is the same as skipping to the first
/// index whose character fails `pred`.
pub proof fn lemma_strip_while_index(s: Seq<char>, pred: spec_fn(char) -> bool, j: int)
    requires
        0 <= j <= s.len(),
        forall|k: int| 0 <= k < j ==> pred(s[k]),
        j == s.len() || !pred(s[j]),
    ensures
        spec_strip_while(s, pred) == s.skip(j),
    decreases j,
{
    if j == 0 {
        assert(s.skip(0) =~= s);
    } else {
        lemma_strip_while_index(s.skip(1), pred, j - 1);
        assert(s.skip(1).skip(j - 1) =~= s.skip(j));
    }
}

/// Drops the longest suffix of characters satisfying `pred`.
pub open spec fn spec_strip_end_while(s: Seq<char>, pred: spec_fn(char) -> bool) -> Seq<char>
    decreases s.len(),
{
    if s.len() > 0 && pred(s.last()) {
        spec_strip_end_while(s.drop_last(), pred)
    } else {
        s
    }
}

/// Dropping a satisfying suffix is the same as taking up to one past
/// the last index whose character fails `pred`.
pub proof fn lemma_strip_end_while_index(s: Seq<char>, pred: spec_fn(char) -> bool, j: int)
    requires
        0 <= j <= s.len(),
        forall|k: int| j <= k < s.len() ==> pred(s[k]),
        j == 0 || !pred(s[j - 1]),
    ensures
        spec_strip_end_while(s, pred) == s.take(j),
    decreases s.len() - j,
{
    if j == s.len() {
        assert(s.take(j) =~= s);
    } else {
        lemma_strip_end_while_index(s.drop_last(), pred, j);
        assert(s.drop_last().take(j) =~= s.take(j));
    }
}

/// Leading whitespace removed.
pub open spec fn spec_trim_start(s: Seq<char>) -> Seq<char> {
    spec_strip_while(s, |c: char| spec_is_space(c))
}

/// Leading and trailing whitespace removed.
pub open spec fn spec_trim(s: Seq<char>) -> Seq<char> {
    spec_strip_end_while(spec_trim_start(s), |c: char| spec_is_space(c))
}

/// True when `p` is a prefix of `s`.
pub open spec fn spec_has_prefix(s: Seq<char>, p: Seq<char>) -> bool {
    p.len() <= s.len() && s.subrange(0, p.len() as int) == p
}

/// Strict lexicographic order on character sequences.
pub open spec fn spec_str_lt(a: Seq<char>, b: Seq<char>) -> bool
    decreases a.len(),
{
    if b.len() == 0 {
        false
    } else if a.len() == 0 {
        true
    } else if a[0] != b[0] {
        a[0] < b[0]
    } else {
        spec_str_lt(a.skip(1), b.skip(1))
    }
}

/// The lexicographic order is irreflexive.
pub proof fn lemma_str_lt_irrefl(a: Seq<char>)
    ensures
        !spec_str_lt(a, a),
    decreases a.len(),
{
    if a.len() > 0 {
        lemma_str_lt_irrefl(a.skip(1));
    }
}

/// The lexicographic order is transitive.
pub proof fn lemma_str_lt_trans(a: Seq<char>, b: Seq<char>, c: Seq<char>)
    requires
        spec_str_lt(a, b),
        spec_str_lt(b, c),
    ensures
        spec_str_lt(a, c),
    decreases a.len() + b.len() + c.len(),
{
    if a.len() > 0 && b.len() > 0 && c.len() > 0 && a[0] == b[0] && b[0] == c[0] {
        lemma_str_lt_trans(a.skip(1), b.skip(1), c.skip(1));
    }
}

/// Executable lexicographic comparison.
pub fn str_lt(a: &str, b: &str) -> (r: bool)
    ensures
        r == spec_str_lt(a@, b@),
{
    let na: usize = a.unicode_len();
    let nb: usize = b.unicode_len();
    let mut i: usize = 0;
    proof {
        assert(a@.skip(0) =~= a@);
        assert(b@.skip(0) =~= b@);
    }
    loop
        invariant
            na == a@.len(),
            nb == b@.len(),
            i <= na,
            i <= nb,
            forall|j: int| 0 <= j < i ==> a@[j] == b@[j],
            spec_str_lt(a@, b@) == spec_str_lt(a@.skip(i as int), b@.skip(i as int)),
        decreases na - i,
    {
        if i >= nb {
            return false;
        }
        if i >= na {
            return true;
        }
        let ca = a.get_char(i);
        let cb = b.get_char(i);
        if ca != cb {
            return ca < cb;
        }
        proof {
            assert(a@.skip(i as int).skip(1) =~= a@.skip(i + 1));
            assert(b@.skip(i as int).skip(1) =~= b@.skip(i + 1));
        }
        i = i + 1;
    }
}

/// Executable ASCII lowercasing of a whole string.
pub fn lower_str(s: &str) -> (r: String)
    ensures
        r@ == spec_lower(s@),
{
    let cs = chars_of(s);
    let n = cs.len();
    let mut out: Vec<char> = Vec::new();
    let mut i: usize = 0;
    while i < n
        invariant
            n == cs@.len(),
            cs@ == s@,
            i <= n,
            out@.len() == i,
            forall|j: int| 0 <= j < i ==> out@[j] == spec_lower_char(s@[j]),
        decreases n - i,
    {
        out.push(lower_char(cs[i]));
        i = i + 1;
    }
    proof {
        assert(out@ =~= spec_lower(s@));
    }
    string_from_chars(&out)
}

/// Executable trim of leading and trailing whitespace.
pub fn trim_str(s: &str) -> (r: &str)
    ensures
        r@ == spec_trim(s@),
{
    let n: usize = s.unicode_len();
    let mut a: usize = 0;
    while a < n && is_space(s.get_char(a))
        invariant
            n == s@.len(),
            a <= n,
            forall|k: int| 0 <= k < a ==> spec_is_space(s@[k]),
        decreases n - a,
    {
        a = a + 1;
    }
    proof {
        lemma_strip_while_index(s@, |c: char| spec_is_space(c), a as int);
    }
    if a == n {
        let r = s.substring_char(a, n);
        proof {
            assert(spec_trim(s@) =~= s@.subrange(a as int, n as int));
        }
        return r;
    }
    let mut b: usize = n;
    while b > a && is_space(s.get_char(b - 1))
        invariant
            n == s@.len(),
            a <= b <= n,
            forall|k: int| b <= k < n ==> spec_is_space(s@[k]),
        decreases b,
    {
        b = b - 1;
    }
    let r = s.substring_char(a, b);
    proof {
        let t = spec_trim_start(s@);
        assert(t == s@.skip(a as int));
        lemma_strip_end_while_index(t, |c: char| spec_is_space(c), b - a);
        assert(t.take(b - a) =~= s@.subrange(a as int, b as int));
    }
    r
}

/// Executable prefix test.
pub fn has_prefix(s: &str, p: &str) -> (r: bool)
    ensures
        r == spec_has_prefix(s@, p@),
{
    let ns: usize = s.unicode_len();
    let np: usize = p.unicode_len();
    if np > ns {
        return false;
    }
    let mut i: usize = 0;
    while i < np
        invariant
            ns == s@.len(),
            np == p@.len(),
            np <= ns,
            i <= np,
            forall|j: int| 0 <= j < i ==> s@[j] == p@[j],
        decreases np - i,
    {
        if s.get_char(i) != p.get_char(i) {
            proof {
                assert(s@.subrange(0, np as int)[i as int] != p@[i as int]);
            }
            return false;
        }
        i = i + 1;
    }
    proof {
        assert(s@.subrange(0, np as int) =~= p@);
    }
    true
}

/// Strips a prefix, returning the remainder when the prefix is there.
pub fn strip_prefix_str<'a>(s: &'a str, p: &str) -> (r: Option<&'a str>)
    ensures
        match r {
            Some(rest) => spec_has_prefix(s@, p@) && rest@ == s@.skip(p@.len() as int),
            None => !spec_has_prefix(s@, p@),
        },
{
    if has_prefix(s, p) {
        let ns: usize = s.unicode_len();
        let np: usize = p.unicode_len();
        let rest = s.substring_char(np, ns);
        proof {
            assert(s@.subrange(np as int, ns as int) =~= s@.skip(np as int));
        }
        Some(rest)
    } else {
        None
    }
}

/// The character class stripped first when normalizing a label:
/// an opening bracket or an ASCII letter.
pub open spec fn spec_is_bracket_or_alpha(c: char) -> bool {
    c == '[' || ('a' <= c && c <= 'z') || ('A' <= c && c <= 'Z')
}

/// The character class stripped second when normalizing a label.
pub open spec fn spec_is_label_punct(c: char) -> bool {
    c == ')' || c == ' ' || c == '-'
}

/// A label normalized for comparison: lowercased, trimmed, with a
/// leading run of `[` and letters dropped, then a leading run of `)`,
/// space and `-` dropped.
pub open spec fn spec_normalize_label_chars(l: Seq<char>) -> Seq<char> {
    spec_strip_while(
        spec_strip_while(spec_trim(spec_lower(l)), |c: char| spec_is_bracket_or_alpha(c)),
        |c: char| spec_is_label_punct(c),
    )
}

/// Executable test for the first stripped class.
pub fn is_bracket_or_alpha(c: char) -> (r: bool)
    ensures
        r == spec_is_bracket_or_alpha(c),
{
    c == '[' || ('a' <= c && c <= 'z') || ('A' <= c && c <= 'Z')
}

/// Executable test for the second stripped class.
pub fn is_label_punct(c: char) -> (r: bool)
    ensures
        r == spec_is_label_punct(c),
{
    c == ')' || c == ' ' || c == '-'
}

/// Executable label normalization.
pub fn normalize_label_str(l: &str) -> (r: String)
    ensures
        r@ == spec_normalize_label_chars(l@),
{
    let low = lower_str(l);
    let t: &str = trim_str(low.as_str());
    let n: usize = t.unicode_len();
    let mut a: usize = 0;
    while a < n && is_bracket_or_alpha(t.get_char(a))
        invariant
            n == t@.len(),
            a <= n,
            forall|k: int| 0 <= k < a ==> spec_is_bracket_or_alpha(t@[k]),
        decreases n - a,
    {
        a = a + 1;
    }
    proof {
        lemma_strip_while_index(t@, |c: char| spec_is_bracket_or_alpha(c), a as int);
    }
    let ghost s1 = t@.skip(a as int);
    let mut b: usize = a;
    while b < n && is_label_punct(t.get_char(b))
        invariant
            n == t@.len(),
            a <= b <= n,
            forall|k: int| a <= k < b ==> spec_is_label_punct(t@[k]),
        decreases n - b,
    {
        b = b + 1;
    }
    proof {
        lemma_strip_while_index(s1, |c: char| spec_is_label_punct(c), b - a);
        assert(s1.skip(b - a) =~= t@.subrange(b as int, n as int));
    }
    let piece: &str = t.substring_char(b, n);
    piece.to_owned()
}

/// The view of an optional string: the character sequence, if present.
pub open spec fn opt_view(o: Option<String>) -> Option<Seq<char>> {
    match o {
        Some(s) => Some(s@),
        None => None,
    }
}

/// Copies an optional string; the copy has the same view.
pub fn clone_opt_string(o: &Option<String>) -> (r: Option<String>)
    ensures
        opt_view(r) == opt_view(*o),
{
    match o {
        Some(s) => Some(s.clone()),
        None => None,
    }
}

/// Copies a vector of strings; the copy is element-wise view-equal.
pub fn clone_string_vec(v: &Vec<String>) -> (r: Vec<String>)
    ensures
        r@.len() == v@.len(),
        forall|i: int| 0 <= i < v@.len() ==> r@[i]@ == v@[i]@,
{
    let n = v.len();
    let mut r: Vec<String> = Vec::new();
    let mut i: usize = 0;
    while i < n
        invariant
            n == v@.len(),
            i <= n,
            r@.len() == i,
            forall|j: int| 0 <= j < i ==> r@[j]@ == v@[j]@,
        decreases n - i,
    {
        r.push(v[i].clone());
        i = i + 1;
    }
    r
}

/// ASCII-case-insensitive equality of two string slices.
pub fn eq_ignore_case(a: &str, b: &str) -> (r: bool)
    ensures
        r == (spec_lower(a@) == spec_lower(b@)),
{
    let na: usize = a.unicode_len();
    let nb: usize = b.unicode_len();
    if na != nb {
        proof {
            assert(spec_lower(a@).len() == na);
            assert(spec_lower(b@).len() == nb);
        }
        return false;
    }
    let mut i: usize = 0;
    while i < na
        invariant
            na == a@.len(),
            na == b@.len(),
            i <= na,
            forall|j: int| 0 <= j < i ==> spec_lower_char(a@[j]) == spec_lower_char(b@[j]),
        decreases na - i,
    {
        let ca = lower_char(a.get_char(i));
        let cb = lower_char(b.get_char(i));
        if ca != cb {
            proof {
                assert(spec_lower(a@)[i as int] != spec_lower(b@)[i as int]);
            }
            return false;
        }
        i = i + 1;
    }
    proof {
        assert(spec_lower(a@) =~= spec_lower(b@));
    }
    true
}


/// The decimal digits of a nonnegative number.
pub open spec fn spec_udec(n: int) -> Seq<char>
    decreases n,
{
    if n < 10 {
        seq![((n + 48) as char)]
    } else {
        spec_udec(n / 10) + seq![((n % 10 + 48) as char)]
    }
}

/// The decimal rendering of a signed number.
pub open spec fn spec_idec(n: int) -> Seq<char> {
    if n < 0 {
        seq!['-'] + spec_udec(-n)
    } else {
        spec_udec(n)
    }
}

/// One decimal digit as a character.
fn digit_char(d: u64) -> (r: char)
    requires
        d < 10,
    ensures
        r == ((d + 48) as char),
{
    match d {
        0 => '0',
        1 => '1',
        2 => '2',
        3 => '3',
        4 => '4',
        5 => '5',
        6 => '6',
        7 => '7',
        8 => '8',
        _ => '9',
    }
}

/// Appends the decimal digits of `v`.
fn push_udec(out: &mut Vec<char>, v: u64)
    ensures
        final(out)@ == old(out)@ + spec_udec(v as int),
    decreases v,
{
    if v < 10 {
        out.push(digit_char(v));
        proof {
            assert(out@ =~= old(out)@ + spec_udec(v as int));
        }
    } else {
        push_udec(out, v / 10);
        out.push(digit_char(v % 10));
        proof {
            assert(out@ =~= old(out)@ + spec_udec(v as int));
        }
    }
}

/// Renders a signed 64-bit number in decimal.
pub fn i64_to_string(v: i64) -> (r: String)
    ensures
        r@ == spec_idec(v as int),
{
    let mut out: Vec<char> = Vec::new();
    if v < 0 {
        out.push('-');
        let m: u64 = if v == -0x8000_0000_0000_0000 {
            0x8000_0000_0000_0000
        } else {
            (-v) as u64
        };
        push_udec(&mut out, m);
        proof {
            assert(out@ =~= spec_idec(v as int));
        }
    } else {
        push_udec(&mut out, v as u64);
        proof {
            assert(out@ =~= spec_idec(v as int));
        }
    }
    string_from_chars(&out)
}

/// Renders an unsigned 32-bit number in decimal.
pub fn u32_to_string(v: u32) -> (r: String)
    ensures
        r@ == spec_udec(v as int),
{
    let mut out: Vec<char> = Vec::new();
    push_udec(&mut out, v as u64);
    proof {
        assert(out@ =~= spec_udec(v as int));
    }
    string_from_chars(&out)
}
} // verus!
