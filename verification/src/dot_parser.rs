//! Parser for the DOT subset that describes workflows: a `digraph`
//! envelope with graph attributes, node declarations, chained edge
//! declarations, and skipped subgraphs, defaults and assignments.

use vstd::prelude::*;
use vstd::string::StringExecFns;

use crate::numbers;
use crate::numbers::spec_is_digit;
use crate::strutil;
use crate::strutil::{spec_has_prefix, spec_trim, spec_trim_start};
use crate::types::attractor_edge::AttractorEdge;
use crate::types::attractor_graph::AttractorGraph;
use crate::types::attractor_node::AttractorNode;

verus! {

/// True for a character that may start an identifier.
pub open spec fn spec_is_ident_start(c: char) -> bool {
    ('a' <= c && c <= 'z') || ('A' <= c && c <= 'Z') || c == '_'
}

/// True for a character that may continue an identifier.
pub open spec fn spec_is_ident_char(c: char) -> bool {
    spec_is_ident_start(c) || spec_is_digit(c)
}

/// The first index at or after `i` that could start an identifier, or
/// the length.
pub open spec fn spec_find_ident_start(s: Seq<char>, i: int) -> int
    decreases s.len() - i,
{
    if i < 0 || i >= s.len() {
        s.len() as int
    } else if spec_is_ident_start(s[i]) {
        i
    } else {
        spec_find_ident_start(s, i + 1)
    }
}

/// The first index at or after `i` that cannot continue an identifier,
/// or the length.
pub open spec fn spec_find_ident_end(s: Seq<char>, i: int) -> int
    decreases s.len() - i,
{
    if i < 0 || i >= s.len() {
        s.len() as int
    } else if !spec_is_ident_char(s[i]) {
        i
    } else {
        spec_find_ident_end(s, i + 1)
    }
}

/// The first index at or after `i` holding a non-digit, or the length.
pub open spec fn spec_find_nondigit(s: Seq<char>, i: int) -> int
    decreases s.len() - i,
{
    if i < 0 || i >= s.len() {
        s.len() as int
    } else if !spec_is_digit(s[i]) {
        i
    } else {
        spec_find_nondigit(s, i + 1)
    }
}

/// A scan that stops at `j` found the first identifier-start index.
proof fn lemma_find_ident_start_index(s: Seq<char>, i: int, j: int)
    requires
        0 <= i <= j <= s.len(),
        forall|k: int| i <= k < j ==> !spec_is_ident_start(s[k]),
        j == s.len() || spec_is_ident_start(s[j]),
    ensures
        spec_find_ident_start(s, i) == j,
    decreases j - i,
{
    if i < j {
        lemma_find_ident_start_index(s, i + 1, j);
    }
}

/// A scan that stops at `j` found the first identifier-end index.
proof fn lemma_find_ident_end_index(s: Seq<char>, i: int, j: int)
    requires
        0 <= i <= j <= s.len(),
        forall|k: int| i <= k < j ==> spec_is_ident_char(s[k]),
        j == s.len() || !spec_is_ident_char(s[j]),
    ensures
        spec_find_ident_end(s, i) == j,
    decreases j - i,
{
    if i < j {
        lemma_find_ident_end_index(s, i + 1, j);
    }
}

/// A scan that stops at `j` found the first non-digit index.
proof fn lemma_find_nondigit_index(s: Seq<char>, i: int, j: int)
    requires
        0 <= i <= j <= s.len(),
        forall|k: int| i <= k < j ==> spec_is_digit(s[k]),
        j == s.len() || !spec_is_digit(s[j]),
    ensures
        spec_find_nondigit(s, i) == j,
    decreases j - i,
{
    if i < j {
        lemma_find_nondigit_index(s, i + 1, j);
    }
}

/// Trimming never lengthens a string.
proof fn lemma_trim_start_le(s: Seq<char>)
    ensures
        spec_trim_start(s).len() <= s.len(),
    decreases s.len(),
{
    if s.len() > 0 && strutil::spec_is_space(s[0]) {
        lemma_trim_start_le(s.skip(1));
        assert(spec_trim_start(s) == spec_trim_start(s.skip(1)));
    }
}

/// The parsed identifier of a string: after dropping leading
/// whitespace, the run of identifier characters beginning at the first
/// letter or underscore (or at the front when no letter occurs), and
/// the remainder after it; nothing when that run is empty.
pub open spec fn spec_parse_identifier(s: Seq<char>) -> Option<(Seq<char>, Seq<char>)> {
    let t = spec_trim_start(s);
    let f = spec_find_ident_start(t, 0);
    let st = if f == t.len() {
        0
    } else {
        f
    };
    let end = spec_find_ident_end(t, st);
    if st < end {
        Some((t.subrange(st, end), t.skip(end)))
    } else {
        None
    }
}

/// The parsed number of a string: after dropping leading whitespace, an
/// optional minus sign and the following digit run, and the remainder;
/// nothing when both are absent.
pub open spec fn spec_parse_num(s: Seq<char>) -> Option<(Seq<char>, Seq<char>)> {
    let t = spec_trim_start(s);
    let d0: int = if t.len() > 0 && t[0] == '-' {
        1
    } else {
        0
    };
    let end = spec_find_nondigit(t, d0);
    if end > 0 {
        Some((t.subrange(0, end), t.skip(end)))
    } else {
        None
    }
}

/// Trims the start of a string slice.
pub fn trim_start_str(s: &str) -> (r: &str)
    ensures
        r@ == spec_trim_start(s@),
        r@.len() <= s@.len(),
{
    let n: usize = s.unicode_len();
    let mut a: usize = 0;
    while a < n && strutil::is_space(s.get_char(a))
        invariant
            n == s@.len(),
            a <= n,
            forall|k: int| 0 <= k < a ==> strutil::spec_is_space(s@[k]),
        decreases n - a,
    {
        a = a + 1;
    }
    proof {
        strutil::lemma_strip_while_index(s@, |c: char| strutil::spec_is_space(c), a as int);
        assert(s@.skip(a as int) =~= s@.subrange(a as int, n as int));
    }
    s.substring_char(a, n)
}

/// Executable test for an identifier-start character.
fn is_ident_start(c: char) -> (r: bool)
    ensures
        r == spec_is_ident_start(c),
{
    ('a' <= c && c <= 'z') || ('A' <= c && c <= 'Z') || c == '_'
}

/// Executable test for an identifier character.
fn is_ident_char(c: char) -> (r: bool)
    ensures
        r == spec_is_ident_char(c),
{
    is_ident_start(c) || ('0' <= c && c <= '9')
}

/// Executable test for a digit.
fn is_digit_char(c: char) -> (r: bool)
    ensures
        r == spec_is_digit(c),
{
    '0' <= c && c <= '9'
}

/// Parses an identifier and returns it plus the remaining string.
pub fn parse_identifier(s: &str) -> (r: Option<(&str, &str)>)
    ensures
        match r {
            Some(p) => spec_parse_identifier(s@) == Some((p.0@, p.1@)) && p.1@.len() < s@.len()
                && p.0@.len() > 0,
            None => spec_parse_identifier(s@) is None,
        },
{
    let t = trim_start_str(s);
    let n: usize = t.unicode_len();
    let mut f: usize = 0;
    while f < n && !is_ident_start(t.get_char(f))
        invariant
            n == t@.len(),
            f <= n,
            forall|k: int| 0 <= k < f ==> !spec_is_ident_start(t@[k]),
        decreases n - f,
    {
        f = f + 1;
    }
    proof {
        lemma_find_ident_start_index(t@, 0, f as int);
    }
    let st: usize = if f == n {
        0
    } else {
        f
    };
    let mut end: usize = st;
    while end < n && is_ident_char(t.get_char(end))
        invariant
            n == t@.len(),
            st <= end <= n,
            forall|k: int| st <= k < end ==> spec_is_ident_char(t@[k]),
        decreases n - end,
    {
        end = end + 1;
    }
    proof {
        lemma_find_ident_end_index(t@, st as int, end as int);
    }
    if st < end {
        let id = t.substring_char(st, end);
        let rest = t.substring_char(end, n);
        proof {
            assert(t@.subrange(end as int, n as int) =~= t@.skip(end as int));
            lemma_trim_start_le(s@);
        }
        Some((id, rest))
    } else {
        None
    }
}

/// Parses an optional decimal number and returns it plus the remainder.
pub fn parse_number(s: &str) -> (r: Option<(String, &str)>)
    ensures
        match r {
            Some(p) => spec_parse_num(s@) == Some((p.0@, p.1@)) && p.1@.len() < s@.len(),
            None => spec_parse_num(s@) is None,
        },
{
    let t = trim_start_str(s);
    let n: usize = t.unicode_len();
    let d0: usize = if n > 0 && t.get_char(0) == '-' {
        1
    } else {
        0
    };
    let mut end: usize = d0;
    while end < n && is_digit_char(t.get_char(end))
        invariant
            n == t@.len(),
            d0 <= end <= n,
            forall|k: int| d0 <= k < end ==> spec_is_digit(t@[k]),
        decreases n - end,
    {
        end = end + 1;
    }
    proof {
        lemma_find_nondigit_index(t@, d0 as int, end as int);
    }
    if end > 0 {
        let num = t.substring_char(0, end);
        let rest = t.substring_char(end, n);
        proof {
            assert(t@.subrange(end as int, n as int) =~= t@.skip(end as int));
            lemma_trim_start_le(s@);
        }
        Some((num.to_owned(), rest))
    } else {
        None
    }
}


/// The first index at or after `i` holding a newline, or the length.
pub open spec fn spec_line_end(s: Seq<char>, i: int) -> int
    decreases s.len() - i,
{
    if i < 0 || i >= s.len() {
        s.len() as int
    } else if s[i] == '\n' {
        i
    } else {
        spec_line_end(s, i + 1)
    }
}

/// Where a scan for a closing `*/` stops: the index of the `*`, or the
/// last index (or the start itself) when the comment never closes.
pub open spec fn spec_block_end(s: Seq<char>, i: int) -> int
    decreases s.len() - i,
{
    if i < 0 || i + 1 >= s.len() {
        i
    } else if s[i] == '*' && s[i + 1] == '/' {
        i
    } else {
        spec_block_end(s, i + 1)
    }
}

/// The line-end scan stays between `i` and the length.
proof fn lemma_line_end_bounds(s: Seq<char>, i: int)
    requires
        0 <= i <= s.len(),
    ensures
        i <= spec_line_end(s, i) <= s.len(),
    decreases s.len() - i,
{
    if i < s.len() && s[i] != '\n' {
        lemma_line_end_bounds(s, i + 1);
    }
}

/// The block-end scan stays between `i` and the length.
proof fn lemma_block_end_bounds(s: Seq<char>, i: int)
    requires
        0 <= i <= s.len(),
    ensures
        i <= spec_block_end(s, i) <= s.len(),
    decreases s.len() - i,
{
    if i + 1 < s.len() && !(s[i] == '*' && s[i + 1] == '/') {
        lemma_block_end_bounds(s, i + 1);
    }
}

/// A scan that stops at `j` found the line end.
proof fn lemma_line_end_index(s: Seq<char>, i: int, j: int)
    requires
        0 <= i <= j <= s.len(),
        forall|k: int| i <= k < j ==> s[k] != '\n',
        j == s.len() || s[j] == '\n',
    ensures
        spec_line_end(s, i) == j,
    decreases j - i,
{
    if i < j {
        lemma_line_end_index(s, i + 1, j);
    }
}

/// True when position `k` continues an open block comment: the close
/// marker is not there and the end is not reached.
pub open spec fn spec_block_open_at(s: Seq<char>, k: int) -> bool {
    k + 1 < s.len() && !(s[k] == '*' && s[k + 1] == '/')
}

/// A scan that stops at `j` found the block end.
proof fn lemma_block_end_index(s: Seq<char>, i: int, j: int)
    requires
        0 <= i <= j,
        j + 1 <= s.len() + 1,
        forall|k: int| i <= k < j ==> spec_block_open_at(s, k),
        j + 1 >= s.len() || (s[j] == '*' && s[j + 1] == '/'),
    ensures
        spec_block_end(s, i) == j,
    decreases j - i,
{
    if i < j {
        assert(spec_block_open_at(s, i));
        lemma_block_end_index(s, i + 1, j);
    }
}

/// The comment-free remainder of the text from position `i` on:
/// `//` runs to the line end, `/*` runs to its closing `*/`, and
/// everything else is kept.
pub open spec fn spec_strip_comments_from(s: Seq<char>, i: int) -> Seq<char>
    decreases s.len() - i
    via spec_strip_comments_from_dec
{
    if i < 0 || i >= s.len() {
        Seq::empty()
    } else if i + 1 < s.len() && s[i] == '/' && s[i + 1] == '/' {
        spec_strip_comments_from(s, spec_line_end(s, i + 2))
    } else if i + 1 < s.len() && s[i] == '/' && s[i + 1] == '*' {
        let k = spec_block_end(s, i + 2);
        if k + 1 < s.len() {
            spec_strip_comments_from(s, k + 2)
        } else {
            spec_strip_comments_from(s, k)
        }
    } else {
        seq![s[i]] + spec_strip_comments_from(s, i + 1)
    }
}

#[via_fn]
proof fn spec_strip_comments_from_dec(s: Seq<char>, i: int) {
    if 0 <= i && i + 1 < s.len() && s[i] == '/' && s[i + 1] == '/' {
        lemma_line_end_bounds(s, i + 2);
    }
    if 0 <= i && i + 1 < s.len() && s[i] == '/' && s[i + 1] == '*' {
        lemma_block_end_bounds(s, i + 2);
    }
}

/// Strips `//` and `/* */` style comments from the source.
pub fn strip_comments(s: &str) -> (r: String)
    ensures
        r@ == spec_strip_comments_from(s@, 0),
{
    let cs = crate::strutil::chars_of(s);
    let n = cs.len();
    let mut out: Vec<char> = Vec::new();
    let mut i: usize = 0;
    while i < n
        invariant
            n == cs@.len(),
            cs@ == s@,
            i <= n,
            spec_strip_comments_from(s@, 0) == out@ + spec_strip_comments_from(s@, i as int),
        decreases n - i,
    {
        if i + 1 < n && cs[i] == '/' && cs[i + 1] == '/' {
            let mut j: usize = i + 2;
            while j < n && cs[j] != '\n'
                invariant
                    n == cs@.len(),
                    cs@ == s@,
                    i + 2 <= j <= n,
                    forall|k: int| i + 2 <= k < j ==> s@[k] != '\n',
                decreases n - j,
            {
                j = j + 1;
            }
            proof {
                lemma_line_end_index(s@, i + 2, j as int);
            }
            i = j;
        } else if i + 1 < n && cs[i] == '/' && cs[i + 1] == '*' {
            let mut k: usize = i + 2;
            while k < n && k + 1 < n && !(cs[k] == '*' && cs[k + 1] == '/')
                invariant
                    n == cs@.len(),
                    cs@ == s@,
                    i + 2 <= k,
                    k <= n,
                    forall|m: int| i + 2 <= m < k ==> spec_block_open_at(s@, m),
                decreases n - k,
            {
                proof {
                    assert(spec_block_open_at(s@, k as int));
                }
                k = k + 1;
            }
            proof {
                lemma_block_end_index(s@, i + 2, k as int);
            }
            if k < n && k + 1 < n {
                i = k + 2;
            } else {
                i = k;
            }
        } else {
            out.push(cs[i]);
            proof {
                assert(out@ + spec_strip_comments_from(s@, i + 1) =~= out@.drop_last() + (seq![
                    s@[i as int],
                ] + spec_strip_comments_from(s@, i + 1)));
            }
            i = i + 1;
        }
    }
    proof {
        assert(out@ + spec_strip_comments_from(s@, n as int) =~= out@);
    }
    crate::strutil::string_from_chars(&out)
}

/// The replacement of one escape code, when recognized.
pub open spec fn spec_escape_char(c: char) -> Option<char> {
    if c == 'n' {
        Some('\n')
    } else if c == 't' {
        Some('\t')
    } else if c == '"' {
        Some('"')
    } else if c == '\\' {
        Some('\\')
    } else {
        None
    }
}

/// The text from position `i` on with escape sequences replaced.
pub open spec fn spec_unescape_from(s: Seq<char>, i: int) -> Seq<char>
    decreases s.len() - i,
{
    if i < 0 || i >= s.len() {
        Seq::empty()
    } else if s[i] == '\\' && i + 1 < s.len() && spec_escape_char(s[i + 1]) is Some {
        seq![spec_escape_char(s[i + 1]).unwrap()] + spec_unescape_from(s, i + 2)
    } else {
        seq![s[i]] + spec_unescape_from(s, i + 1)
    }
}

/// Unescapes the quoted-string escape sequences.
pub fn unescape_quoted_string(s: &str) -> (r: String)
    ensures
        r@ == spec_unescape_from(s@, 0),
{
    let cs = crate::strutil::chars_of(s);
    let n = cs.len();
    let mut out: Vec<char> = Vec::new();
    let mut i: usize = 0;
    while i < n
        invariant
            n == cs@.len(),
            cs@ == s@,
            i <= n,
            spec_unescape_from(s@, 0) == out@ + spec_unescape_from(s@, i as int),
        decreases n - i,
    {
        let ghost out0 = out@;
        if cs[i] == '\\' && i + 1 < n {
            let e = cs[i + 1];
            let mapped: Option<char> = if e == 'n' {
                Some('\n')
            } else if e == 't' {
                Some('\t')
            } else if e == '"' {
                Some('"')
            } else if e == '\\' {
                Some('\\')
            } else {
                None
            };
            match mapped {
                Some(m) => {
                    out.push(m);
                    proof {
                        assert(out@ + spec_unescape_from(s@, i + 2) =~= out0
                            + spec_unescape_from(s@, i as int));
                    }
                    i = i + 2;
                },
                None => {
                    out.push(cs[i]);
                    proof {
                        assert(out@ + spec_unescape_from(s@, i + 1) =~= out0
                            + spec_unescape_from(s@, i as int));
                    }
                    i = i + 1;
                },
            }
        } else {
            out.push(cs[i]);
            proof {
                assert(out@ + spec_unescape_from(s@, i + 1) =~= out0 + spec_unescape_from(
                    s@,
                    i as int,
                ));
            }
            i = i + 1;
        }
    }
    proof {
        assert(out@ + spec_unescape_from(s@, n as int) =~= out@);
    }
    crate::strutil::string_from_chars(&out)
}

/// Where the closing quote of a string that opened before `i` sits:
/// backslashes skip the next character; the length means unterminated.
pub open spec fn spec_quote_end(s: Seq<char>, i: int) -> int
    decreases s.len() - i,
{
    if i < 0 || i >= s.len() {
        s.len() as int
    } else if s[i] == '\\' && i + 1 < s.len() {
        spec_quote_end(s, i + 2)
    } else if s[i] == '"' {
        i
    } else {
        spec_quote_end(s, i + 1)
    }
}

/// Finds the closing quote position from position 1 on.
fn quote_end_from_one(t: &str) -> (r: usize)
    requires
        t@.len() >= 1,
    ensures
        r as int == spec_quote_end(t@, 1),
        1 <= r <= t@.len(),
{
    let n: usize = t.unicode_len();
    let mut e: usize = 1;
    while e < n
        invariant
            n == t@.len(),
            1 <= e <= n + 1,
            spec_quote_end(t@, 1) == spec_quote_end(t@, e as int),
        decreases n + 2 - e,
    {
        let c = t.get_char(e);
        if c == '\\' && e + 1 < n {
            e = e + 2;
        } else if c == '"' {
            return e;
        } else {
            e = e + 1;
        }
    }
    n
}

/// The parsed value of a string: a quoted string with its escapes
/// replaced, a number, or a bare identifier, with the remainder;
/// an error message otherwise.
pub open spec fn spec_parse_value(s: Seq<char>) -> Result<(Seq<char>, Seq<char>), Seq<char>> {
    let t = spec_trim_start(s);
    if t.len() > 0 && t[0] == '"' {
        let e = spec_quote_end(t, 1);
        if e < t.len() {
            Ok((spec_unescape_from(t.subrange(1, e), 0), spec_trim_start(t.skip(e + 1))))
        } else {
            Err("Unterminated quoted string"@)
        }
    } else {
        match spec_parse_num(t) {
            Some(p) => Ok(p),
            None => match spec_parse_identifier(t) {
                Some(p) => Ok(p),
                None => Err("Expected value"@),
            },
        }
    }
}

/// Parses a quoted string, number, or identifier value and returns it
/// plus the remainder.
pub fn parse_value(s: &str) -> (r: Result<(String, &str), String>)
    ensures
        match r {
            Ok(p) => spec_parse_value(s@) == Ok::<_, Seq<char>>((p.0@, p.1@)) && p.1@.len()
                < s@.len(),
            Err(e) => spec_parse_value(s@) == Err::<(Seq<char>, Seq<char>), _>(e@),
        },
{
    let t = trim_start_str(s);
    let n: usize = t.unicode_len();
    if n > 0 && t.get_char(0) == '"' {
        let e = quote_end_from_one(t);
        if e < n {
            let inner = t.substring_char(1, e);
            let v = unescape_quoted_string(inner);
            let rest = trim_start_str(t.substring_char(e + 1, n));
            proof {
                assert(t@.subrange(e + 1, n as int) =~= t@.skip(e + 1));
                lemma_trim_start_le(t@.skip(e + 1));
            }
            Ok((v, rest))
        } else {
            Err("Unterminated quoted string".to_owned())
        }
    } else {
        match parse_number(t) {
            Some(p) => Ok(p),
            None => match parse_identifier(t) {
                Some(p) => Ok((p.0.to_owned(), p.1)),
                None => Err("Expected value".to_owned()),
            },
        }
    }
}


/// The handler name a shape resolves to; the table is keyed by the
/// lowercase shape name.
pub open spec fn spec_handler_for_shape(shape: Seq<char>) -> Seq<char> {
    let low = strutil::spec_lower(shape);
    if low == "mdiamond"@ {
        "start"@
    } else if low == "msquare"@ {
        "exit"@
    } else if low == "box"@ {
        "codergen"@
    } else if low == "hexagon"@ {
        "wait.human"@
    } else if low == "diamond"@ {
        "conditional"@
    } else if low == "component"@ {
        "parallel"@
    } else if low == "tripleoctagon"@ {
        "parallel.fan_in"@
    } else if low == "parallelogram"@ {
        "tool"@
    } else if low == "house"@ {
        "stack.manager_loop"@
    } else {
        "codergen"@
    }
}

/// Maps DOT shape names to handler type strings, ignoring ASCII case;
/// unknown shapes run the default handler.
pub fn resolve_handler_from_shape(shape: &str) -> (r: Option<String>)
    ensures
        r matches Some(h) && h@ == spec_handler_for_shape(shape@),
{
    let low = strutil::lower_str(shape);
    let l: &str = low.as_str();
    let h: &str = if strutil::str_eq(l, "mdiamond") {
        "start"
    } else if strutil::str_eq(l, "msquare") {
        "exit"
    } else if strutil::str_eq(l, "box") {
        "codergen"
    } else if strutil::str_eq(l, "hexagon") {
        "wait.human"
    } else if strutil::str_eq(l, "diamond") {
        "conditional"
    } else if strutil::str_eq(l, "component") {
        "parallel"
    } else if strutil::str_eq(l, "tripleoctagon") {
        "parallel.fan_in"
    } else if strutil::str_eq(l, "parallelogram") {
        "tool"
    } else if strutil::str_eq(l, "house") {
        "stack.manager_loop"
    } else {
        "codergen"
    };
    Some(h.to_owned())
}

/// The view of an attribute list: each pair as character sequences.
pub open spec fn attrs_view(s: Seq<(String, String)>) -> Seq<(Seq<char>, Seq<char>)> {
    s.map_values(|p: (String, String)| (p.0@, p.1@))
}

/// The first index at or after `i` whose pair carries the key, or -1.
pub open spec fn spec_find_key(attrs: Seq<(Seq<char>, Seq<char>)>, key: Seq<char>, i: int) -> int
    decreases attrs.len() - i,
{
    if i < 0 || i >= attrs.len() {
        -1
    } else if attrs[i].0 == key {
        i
    } else {
        spec_find_key(attrs, key, i + 1)
    }
}

/// The value of the first pair carrying the key, if any.
pub open spec fn spec_first_value(attrs: Seq<(Seq<char>, Seq<char>)>, key: Seq<char>) -> Option<
    Seq<char>,
> {
    let i = spec_find_key(attrs, key, 0);
    if i >= 0 {
        Some(attrs[i].1)
    } else {
        None
    }
}

/// Looks the first pair with the key up.
fn find_first_value<'a>(attrs: &'a [(String, String)], key: &str) -> (r: Option<&'a String>)
    ensures
        match r {
            Some(v) => spec_first_value(attrs_view(attrs@), key@) == Some(v@),
            None => spec_first_value(attrs_view(attrs@), key@) is None,
        },
{
    let ghost av = attrs_view(attrs@);
    let n = attrs.len();
    let mut i: usize = 0;
    while i < n
        invariant
            av == attrs_view(attrs@),
            n == attrs@.len(),
            i <= n,
            spec_find_key(av, key@, 0) == spec_find_key(av, key@, i as int),
        decreases n - i,
    {
        proof {
            assert(av[i as int] == (attrs@[i as int].0@, attrs@[i as int].1@));
        }
        if strutil::str_eq(attrs[i].0.as_str(), key) {
            proof {
                assert(spec_find_key(av, key@, i as int) == i as int);
            }
            return Some(&attrs[i].1);
        }
        i = i + 1;
    }
    None
}

/// Extracts label, condition, and weight from an edge attribute list:
/// the first value under each key, with an unreadable weight counting
/// as zero.
pub fn extract_edge_attrs(attrs: &[(String, String)]) -> (r: (
    Option<String>,
    Option<String>,
    i32,
))
    ensures
        strutil::opt_view(r.0) == spec_first_value(attrs_view(attrs@), "label"@),
        strutil::opt_view(r.1) == spec_first_value(attrs_view(attrs@), "condition"@),
        r.2 as int == (match spec_first_value(attrs_view(attrs@), "weight"@) {
            Some(v) => match numbers::spec_parse_i32(v) {
                Some(w) => w,
                None => 0,
            },
            None => 0,
        }),
{
    let label: Option<String> = match find_first_value(attrs, "label") {
        Some(v) => Some(v.clone()),
        None => None,
    };
    let condition: Option<String> = match find_first_value(attrs, "condition") {
        Some(v) => Some(v.clone()),
        None => None,
    };
    let weight: i32 = match find_first_value(attrs, "weight") {
        Some(v) => match numbers::parse_i32(v.as_str()) {
            Some(w) => w,
            None => 0,
        },
        None => 0,
    };
    (label, condition, weight)
}

/// The graph-level attributes folded left to right: later values win.
pub open spec fn spec_graph_attrs_fold(
    goal0: Seq<char>,
    dmr0: int,
    attrs: Seq<(Seq<char>, Seq<char>)>,
) -> (Seq<char>, int)
    decreases attrs.len(),
{
    if attrs.len() == 0 {
        (goal0, dmr0)
    } else {
        let (g, d) = spec_graph_attrs_fold(goal0, dmr0, attrs.drop_last());
        if attrs.last().0 == "goal"@ {
            (attrs.last().1, d)
        } else if attrs.last().0 == "default_max_retry"@ {
            (
                g,
                match numbers::spec_parse_u32(attrs.last().1) {
                    Some(v) => v,
                    None => 50,
                },
            )
        } else {
            (g, d)
        }
    }
}

/// Applies graph-level attributes (goal, default retry bound) to the
/// graph; nodes and edges stay untouched.
pub fn apply_graph_attrs(attrs: &[(String, String)], graph: &mut AttractorGraph)
    ensures
        ({
            let (g, d) = spec_graph_attrs_fold(
                old(graph).goal@,
                old(graph).default_max_retry as int,
                attrs_view(attrs@),
            );
            final(graph).goal@ == g && final(graph).default_max_retry as int == d
        }),
        final(graph).nodes == old(graph).nodes,
        final(graph).edges == old(graph).edges,
{
    let ghost av = attrs_view(attrs@);
    let n = attrs.len();
    let mut i: usize = 0;
    while i < n
        invariant
            av == attrs_view(attrs@),
            n == attrs@.len(),
            i <= n,
            graph.nodes == old(graph).nodes,
            graph.edges == old(graph).edges,
            ({
                let (g, d) = spec_graph_attrs_fold(
                    old(graph).goal@,
                    old(graph).default_max_retry as int,
                    av.take(i as int),
                );
                graph.goal@ == g && graph.default_max_retry as int == d
            }),
        decreases n - i,
    {
        proof {
            assert(av.take(i + 1).drop_last() =~= av.take(i as int));
            assert(av.take(i + 1).last() == av[i as int]);
            assert(av[i as int] == (attrs@[i as int].0@, attrs@[i as int].1@));
        }
        let k = &attrs[i].0;
        let v = &attrs[i].1;
        if strutil::str_eq(k.as_str(), "goal") {
            graph.goal = v.clone();
        } else if strutil::str_eq(k.as_str(), "default_max_retry") {
            graph.default_max_retry = match numbers::parse_u32(v.as_str()) {
                Some(x) => x,
                None => 50,
            };
        }
        i = i + 1;
    }
    proof {
        assert(av.take(n as int) =~= av);
    }
}

/// The node attributes folded left to right: later values win, with
/// the node id as the default label and `box` the default shape.
pub ghost struct NodeAttrs {
    pub shape: Seq<char>,
    pub handler: Option<Seq<char>>,
    pub label: Option<Seq<char>>,
    pub prompt: Option<Seq<char>>,
    pub command: Option<Seq<char>>,
    pub goal_gate: bool,
    pub max_retries: int,
}

/// Folds a node attribute list into its recognized fields.
pub open spec fn spec_node_attrs_fold(id: Seq<char>, attrs: Seq<(Seq<char>, Seq<char>)>) -> NodeAttrs
    decreases attrs.len(),
{
    if attrs.len() == 0 {
        NodeAttrs {
            shape: "box"@,
            handler: None,
            label: Some(id),
            prompt: None,
            command: None,
            goal_gate: false,
            max_retries: 0,
        }
    } else {
        let a = spec_node_attrs_fold(id, attrs.drop_last());
        let k = attrs.last().0;
        let v = attrs.last().1;
        if k == "shape"@ {
            NodeAttrs { shape: v, ..a }
        } else if k == "type"@ {
            NodeAttrs { handler: Some(v), ..a }
        } else if k == "label"@ {
            NodeAttrs { label: Some(v), ..a }
        } else if k == "prompt"@ {
            NodeAttrs { prompt: Some(v), ..a }
        } else if k == "command"@ {
            NodeAttrs { command: Some(v), ..a }
        } else if k == "goal_gate"@ {
            NodeAttrs { goal_gate: strutil::spec_lower(v) == strutil::spec_lower("true"@), ..a }
        } else if k == "max_retries"@ {
            NodeAttrs {
                max_retries: (match numbers::spec_parse_u32(v) {
                    Some(x) => x,
                    None => 0,
                }),
                ..a
            }
        } else {
            a
        }
    }
}

/// Builds a node from its id and attribute list; the handler type is
/// the explicit `type` attribute, or else resolved from the shape.
pub fn parse_node_attrs(id: &str, attrs: &[(String, String)]) -> (r: Result<AttractorNode, String>)
    ensures
        ({
            let a = spec_node_attrs_fold(id@, attrs_view(attrs@));
            r matches Ok(n) && n.id@ == id@ && n.shape@ == a.shape && strutil::opt_view(
                n.handler_type,
            ) == (match a.handler {
                Some(h) => Some(h),
                None => Some(spec_handler_for_shape(a.shape)),
            }) && strutil::opt_view(n.label) == a.label && strutil::opt_view(n.prompt) == a.prompt
                && strutil::opt_view(n.command) == a.command && n.goal_gate == a.goal_gate
                && n.max_retries as int == a.max_retries
        }),
{
    let mut shape: String = "box".to_owned();
    let mut handler_type: Option<String> = None;
    let mut label: Option<String> = Some(id.to_owned());
    let mut prompt: Option<String> = None;
    let mut command: Option<String> = None;
    let mut goal_gate: bool = false;
    let mut max_retries: u32 = 0;
    let ghost av = attrs_view(attrs@);
    let n = attrs.len();
    let mut i: usize = 0;
    while i < n
        invariant
            av == attrs_view(attrs@),
            n == attrs@.len(),
            i <= n,
            ({
                let a = spec_node_attrs_fold(id@, av.take(i as int));
                shape@ == a.shape && strutil::opt_view(handler_type) == a.handler
                    && strutil::opt_view(label) == a.label && strutil::opt_view(prompt) == a.prompt
                    && strutil::opt_view(command) == a.command && goal_gate == a.goal_gate
                    && max_retries as int == a.max_retries
            }),
        decreases n - i,
    {
        proof {
            assert(av.take(i + 1).drop_last() =~= av.take(i as int));
            assert(av.take(i + 1).last() == av[i as int]);
            assert(av[i as int] == (attrs@[i as int].0@, attrs@[i as int].1@));
        }
        let k = &attrs[i].0;
        let v = &attrs[i].1;
        if strutil::str_eq(k.as_str(), "shape") {
            shape = v.clone();
        } else if strutil::str_eq(k.as_str(), "type") {
            handler_type = Some(v.clone());
        } else if strutil::str_eq(k.as_str(), "label") {
            label = Some(v.clone());
        } else if strutil::str_eq(k.as_str(), "prompt") {
            prompt = Some(v.clone());
        } else if strutil::str_eq(k.as_str(), "command") {
            command = Some(v.clone());
        } else if strutil::str_eq(k.as_str(), "goal_gate") {
            goal_gate = strutil::eq_ignore_case(v.as_str(), "true");
        } else if strutil::str_eq(k.as_str(), "max_retries") {
            max_retries = match numbers::parse_u32(v.as_str()) {
                Some(x) => x,
                None => 0,
            };
        }
        i = i + 1;
    }
    proof {
        assert(av.take(n as int) =~= av);
    }
    let handler_type = match handler_type {
        Some(h) => Some(h),
        None => resolve_handler_from_shape(shape.as_str()),
    };
    Ok(AttractorNode {
        id: id.to_owned(),
        shape,
        handler_type,
        label,
        prompt,
        command,
        goal_gate,
        max_retries,
    })
}



/// The view of an edge: every field as plain values.
#[verifier::ext_equal]
pub ghost struct EdgeView {
    pub from_node: Seq<char>,
    pub to_node: Seq<char>,
    pub label: Option<Seq<char>>,
    pub condition: Option<Seq<char>>,
    pub weight: int,
}

/// The view of an edge value.
pub open spec fn edge_view(e: AttractorEdge) -> EdgeView {
    EdgeView {
        from_node: e.from_node@,
        to_node: e.to_node@,
        label: strutil::opt_view(e.label),
        condition: strutil::opt_view(e.condition),
        weight: e.weight as int,
    }
}

/// The view of a node: every field as plain values.
#[verifier::ext_equal]
pub ghost struct NodeView {
    pub id: Seq<char>,
    pub shape: Seq<char>,
    pub handler: Option<Seq<char>>,
    pub label: Option<Seq<char>>,
    pub prompt: Option<Seq<char>>,
    pub command: Option<Seq<char>>,
    pub goal_gate: bool,
    pub max_retries: int,
}

/// The view of a node value.
pub open spec fn node_view(n: AttractorNode) -> NodeView {
    NodeView {
        id: n.id@,
        shape: n.shape@,
        handler: strutil::opt_view(n.handler_type),
        label: strutil::opt_view(n.label),
        prompt: strutil::opt_view(n.prompt),
        command: strutil::opt_view(n.command),
        goal_gate: n.goal_gate,
        max_retries: n.max_retries as int,
    }
}

/// The node an id and an attribute list declare: the folded attributes
/// with the handler resolved from the shape when no `type` is given.
pub open spec fn spec_node_of(id: Seq<char>, attrs: Seq<(Seq<char>, Seq<char>)>) -> NodeView {
    let a = spec_node_attrs_fold(id, attrs);
    NodeView {
        id: id,
        shape: a.shape,
        handler: Some(
            match a.handler {
                Some(h) => h,
                None => spec_handler_for_shape(a.shape),
            },
        ),
        label: a.label,
        prompt: a.prompt,
        command: a.command,
        goal_gate: a.goal_gate,
        max_retries: a.max_retries,
    }
}

/// The view of a whole graph.
#[verifier::ext_equal]
pub ghost struct GraphView {
    pub goal: Seq<char>,
    pub default_max_retry: int,
    pub nodes: Seq<NodeView>,
    pub edges: Seq<EdgeView>,
}

/// The view of a graph value.
pub open spec fn graph_view(g: AttractorGraph) -> GraphView {
    GraphView {
        goal: g.goal@,
        default_max_retry: g.default_max_retry as int,
        nodes: g.nodes.seq().map_values(|n: AttractorNode| node_view(n)),
        edges: g.edges@.map_values(|e: AttractorEdge| edge_view(e)),
    }
}

/// The edges an edge chain declares: one per link, in order, each with
/// its own copy of the same label, condition and weight.
pub open spec fn spec_chain_edges(
    from: Seq<char>,
    targets: Seq<Seq<char>>,
    label: Option<Seq<char>>,
    condition: Option<Seq<char>>,
    weight: int,
) -> Seq<EdgeView>
    decreases targets.len(),
{
    if targets.len() == 0 {
        Seq::empty()
    } else {
        spec_chain_edges(from, targets.drop_last(), label, condition, weight).push(
            EdgeView {
                from_node: if targets.len() == 1 {
                    from
                } else {
                    targets[targets.len() - 2]
                },
                to_node: targets.last(),
                label: label,
                condition: condition,
                weight: weight,
            },
        )
    }
}


/// Statement-terminating semicolons dropped from the front.
pub open spec fn spec_strip_semis(s: Seq<char>) -> Seq<char>
    decreases s.len(),
{
    if s.len() > 0 && s[0] == ';' {
        spec_strip_semis(s.skip(1))
    } else {
        s
    }
}

/// A scan that stops at `j` found the end of the semicolon run.
proof fn lemma_strip_semis_index(s: Seq<char>, j: int)
    requires
        0 <= j <= s.len(),
        forall|k: int| 0 <= k < j ==> s[k] == ';',
        j == s.len() || s[j] != ';',
    ensures
        spec_strip_semis(s) == s.skip(j),
    decreases j,
{
    if j == 0 {
        assert(s.skip(0) =~= s);
    } else {
        lemma_strip_semis_index(s.skip(1), j - 1);
        assert(s.skip(1).skip(j - 1) =~= s.skip(j));
    }
}

/// Separator commas dropped from the front.
pub open spec fn spec_strip_commas(s: Seq<char>) -> Seq<char>
    decreases s.len(),
{
    if s.len() > 0 && s[0] == ',' {
        spec_strip_commas(s.skip(1))
    } else {
        s
    }
}

/// A scan that stops at `j` found the end of the comma run.
proof fn lemma_strip_commas_index(s: Seq<char>, j: int)
    requires
        0 <= j <= s.len(),
        forall|k: int| 0 <= k < j ==> s[k] == ',',
        j == s.len() || s[j] != ',',
    ensures
        spec_strip_commas(s) == s.skip(j),
    decreases j,
{
    if j == 0 {
        assert(s.skip(0) =~= s);
    } else {
        lemma_strip_commas_index(s.skip(1), j - 1);
        assert(s.skip(1).skip(j - 1) =~= s.skip(j));
    }
}

/// The text after a statement: whitespace and terminating semicolons
/// dropped.
pub open spec fn spec_after_statement(s: Seq<char>) -> Seq<char> {
    spec_strip_semis(spec_trim_start(s))
}

/// The parsed `key=value` list from position just inside the `[`:
/// pairs accumulate until the closing bracket; trailing commas are
/// tolerated. The fuel only bounds the recursion; every run of the
/// parser consumes text faster than it spends fuel.
pub open spec fn spec_parse_attr_list(
    s: Seq<char>,
    acc: Seq<(Seq<char>, Seq<char>)>,
    fuel: nat,
) -> Result<(Seq<(Seq<char>, Seq<char>)>, Seq<char>), Seq<char>>
    decreases fuel,
{
    if fuel == 0 {
        Err("Unclosed attribute block"@)
    } else if s.len() > 0 && s[0] == ']' {
        Ok((acc, spec_trim_start(s.skip(1))))
    } else {
        match spec_parse_identifier(s) {
            None => Err("Expected attribute key"@),
            Some((k, rest)) => {
                let rt = spec_trim_start(rest);
                if !spec_has_prefix(rt, "="@) {
                    Err("Expected '='"@)
                } else {
                    match spec_parse_value(spec_trim_start(rt.skip(1))) {
                        Err(e) => Err(e),
                        Ok((v, rest2)) => spec_parse_attr_list(
                            spec_strip_commas(spec_trim_start(rest2)),
                            acc.push((k, v)),
                            (fuel - 1) as nat,
                        ),
                    }
                }
            },
        }
    }
}

/// The parsed attribute block of a string: `[` after optional spaces,
/// then the `key=value` list.
pub open spec fn spec_parse_attr_block(s: Seq<char>) -> Result<
    (Seq<(Seq<char>, Seq<char>)>, Seq<char>),
    Seq<char>,
> {
    let t0 = spec_trim_start(s);
    if !spec_has_prefix(t0, "["@) {
        Err("Expected '['"@)
    } else {
        spec_parse_attr_list(spec_trim_start(t0.skip(1)), Seq::empty(), (t0.len() + 1) as nat)
    }
}

/// Skips whitespace and any statement-terminating semicolons.
fn after_statement(s: &str) -> (r: &str)
    ensures
        r@ == spec_after_statement(s@),
        r@.len() <= s@.len(),
{
    let t = trim_start_str(s);
    let n: usize = t.unicode_len();
    let mut a: usize = 0;
    while a < n && t.get_char(a) == ';'
        invariant
            n == t@.len(),
            a <= n,
            forall|k: int| 0 <= k < a ==> t@[k] == ';',
        decreases n - a,
    {
        a = a + 1;
    }
    proof {
        lemma_strip_semis_index(t@, a as int);
        assert(t@.skip(a as int) =~= t@.subrange(a as int, n as int));
    }
    t.substring_char(a, n)
}

/// Parses `[key=value,...]` and returns the attributes plus the
/// remainder; attribute blocks tolerate trailing commas.
pub fn parse_attr_block(s: &str) -> (r: Result<(Vec<(String, String)>, &str), String>)
    ensures
        ({
            let res = spec_parse_attr_block(s@);
            match r {
                Ok(p) => res == Ok::<_, Seq<char>>((attrs_view(p.0@), p.1@)) && p.1@.len()
                    < s@.len(),
                Err(e) => res == Err::<(Seq<(Seq<char>, Seq<char>)>, Seq<char>), _>(e@),
            }
        }),
{
    let t0 = trim_start_str(s);
    let t = match strutil::strip_prefix_str(t0, "[") {
        Some(rest) => rest,
        None => {
            return Err("Expected '['".to_owned());
        },
    };
    proof {
        reveal_strlit("[");
        assert(t@.len() < s@.len());
        assert(t@ == t0@.skip(1));
    }
    let ghost fuel0 = (t0@.len() + 1) as nat;
    let mut attrs: Vec<(String, String)> = Vec::new();
    let mut remaining: &str = trim_start_str(t);
    let ghost mut spent: nat = 0;
    proof {
        assert(attrs_view(attrs@) =~= Seq::<(Seq<char>, Seq<char>)>::empty());
        assert(fuel0 - spent > remaining@.len());
    }
    loop
        invariant
            remaining@.len() < s@.len(),
            spent <= fuel0,
            fuel0 - spent > remaining@.len(),
            spec_parse_attr_block(s@) == spec_parse_attr_list(
                remaining@,
                attrs_view(attrs@),
                (fuel0 - spent) as nat,
            ),
        decreases remaining@.len(),
    {
        let ghost fuel = (fuel0 - spent) as nat;
        let n: usize = remaining.unicode_len();
        if n > 0 && remaining.get_char(0) == ']' {
            let rest = trim_start_str(remaining.substring_char(1, n));
            proof {
                assert(remaining@.subrange(1, n as int) =~= remaining@.skip(1));
            }
            return Ok((attrs, rest));
        }
        let (k, after_key) = match parse_identifier(remaining) {
            Some(p) => p,
            None => {
                return Err("Expected attribute key".to_owned());
            },
        };
        let after_key_t = trim_start_str(after_key);
        let after_eq = match strutil::strip_prefix_str(after_key_t, "=") {
            Some(rest) => rest,
            None => {
                return Err("Expected '='".to_owned());
            },
        };
        proof {
            reveal_strlit("=");
            assert(after_eq@ == after_key_t@.skip(1));
        }
        let (v, after_val) = match parse_value(trim_start_str(after_eq)) {
            Ok(p) => p,
            Err(e) => {
                return Err(e);
            },
        };
        let ghost attrs0 = attrs_view(attrs@);
        attrs.push((k.to_owned(), v));
        proof {
            assert(attrs_view(attrs@) =~= attrs0.push((k@, v@)));
        }
        let after_val_t = trim_start_str(after_val);
        let m: usize = after_val_t.unicode_len();
        let mut a: usize = 0;
        while a < m && after_val_t.get_char(a) == ','
            invariant
                m == after_val_t@.len(),
                a <= m,
                forall|j: int| 0 <= j < a ==> after_val_t@[j] == ',',
            decreases m - a,
        {
            a = a + 1;
        }
        let next = after_val_t.substring_char(a, m);
        proof {
            lemma_strip_commas_index(after_val_t@, a as int);
            assert(after_val_t@.skip(a as int) =~= after_val_t@.subrange(a as int, m as int));
            assert(next@.len() <= after_val@.len());
            assert(after_val@.len() < remaining@.len());
            spent = spent + 1;
        }
        remaining = next;
    }
}


/// The first index at or after `i` holding `c`, or the length.
pub open spec fn spec_find_char(s: Seq<char>, i: int, c: char) -> int
    decreases s.len() - i,
{
    if i < 0 || i >= s.len() {
        s.len() as int
    } else if s[i] == c {
        i
    } else {
        spec_find_char(s, i + 1, c)
    }
}

/// A scan that stops at `j` found the first occurrence.
proof fn lemma_find_char_index(s: Seq<char>, i: int, c: char, j: int)
    requires
        0 <= i <= j <= s.len(),
        forall|k: int| i <= k < j ==> s[k] != c,
        j == s.len() || s[j] == c,
    ensures
        spec_find_char(s, i, c) == j,
    decreases j - i,
{
    if i < j {
        lemma_find_char_index(s, i + 1, c, j);
    }
}

/// Where a bracketed region that is `depth` levels deep at position
/// `i` closes: the index of the balancing closer, or the length when
/// the region never closes.
pub open spec fn spec_balanced_end(
    s: Seq<char>,
    i: int,
    depth: int,
    openc: char,
    closec: char,
) -> int
    decreases s.len() - i,
{
    if i < 0 || i >= s.len() {
        s.len() as int
    } else if s[i] == openc {
        spec_balanced_end(s, i + 1, depth + 1, openc, closec)
    } else if s[i] == closec {
        if depth == 1 {
            i
        } else {
            spec_balanced_end(s, i + 1, depth - 1, openc, closec)
        }
    } else {
        spec_balanced_end(s, i + 1, depth, openc, closec)
    }
}

/// The balance scan never stops before `i`.
proof fn lemma_balanced_end_ge(s: Seq<char>, i: int, depth: int, openc: char, closec: char)
    requires
        0 <= i <= s.len(),
    ensures
        i <= spec_balanced_end(s, i, depth, openc, closec) <= s.len(),
    decreases s.len() - i,
{
    if i < s.len() {
        lemma_balanced_end_ge(s, i + 1, depth + 1, openc, closec);
        lemma_balanced_end_ge(s, i + 1, depth - 1, openc, closec);
        lemma_balanced_end_ge(s, i + 1, depth, openc, closec);
    }
}

/// What skipping a balanced bracketed region leaves: the text after
/// the balancing closer of the first opener, an error naming the
/// missing opener, or an error for an unclosed region.
pub open spec fn spec_skip_balanced(
    s: Seq<char>,
    openc: char,
    closec: char,
    missing_open: Seq<char>,
    unclosed: Seq<char>,
) -> Result<Seq<char>, Seq<char>> {
    let start = spec_find_char(s, 0, openc);
    if start == s.len() {
        Err(missing_open)
    } else {
        let end = spec_balanced_end(s, start + 1, 1, openc, closec);
        if end == s.len() {
            Err(unclosed)
        } else {
            Ok(s.skip(end + 1))
        }
    }
}

/// What skipping an assignment leaves: the text after the first
/// semicolon following the first `=`, the tail when no semicolon
/// follows, or an error when no `=` occurs.
pub open spec fn spec_skip_assign(s: Seq<char>) -> Result<Seq<char>, Seq<char>> {
    let eq = spec_find_char(s, 0, '=');
    if eq == s.len() {
        Err("Expected '='"@)
    } else {
        let semi = spec_find_char(s, eq + 1, ';');
        if semi == s.len() {
            Ok(Seq::empty())
        } else {
            Ok(s.skip(semi + 1))
        }
    }
}

/// Skips a balanced `[...]` attribute block and returns the remainder.
pub fn skip_attr_block(s: &str) -> (r: Result<&str, String>)
    ensures
        ({
            let res = spec_skip_balanced(s@, '[', ']', "Expected '['"@, "Unclosed attribute block"@);
            match r {
                Ok(rest) => res == Ok::<_, Seq<char>>(rest@) && rest@.len() < s@.len(),
                Err(e) => res == Err::<Seq<char>, _>(e@),
            }
        }),
{
    let n: usize = s.unicode_len();
    let mut i: usize = 0;
    while i < n && s.get_char(i) != '['
        invariant
            n == s@.len(),
            i <= n,
            forall|k: int| 0 <= k < i ==> s@[k] != '[',
        decreases n - i,
    {
        i = i + 1;
    }
    proof {
        lemma_find_char_index(s@, 0, '[', i as int);
    }
    if i >= n {
        return Err("Expected '['".to_owned());
    }
    let mut depth: usize = 1;
    let mut j: usize = i + 1;
    proof {
        lemma_balanced_end_ge(s@, j as int, depth as int, '[', ']');
    }
    while j < n
        invariant
            n == s@.len(),
            i < j <= n,
            i < n,
            spec_find_char(s@, 0, '[') == i as int,
            depth >= 1,
            depth <= j,
            spec_balanced_end(s@, i + 1, 1, '[', ']') == spec_balanced_end(
                s@,
                j as int,
                depth as int,
                '[',
                ']',
            ),
        decreases n - j,
    {
        let c = s.get_char(j);
        if c == '[' {
            depth = depth + 1;
        } else if c == ']' {
            if depth == 1 {
                let rest = s.substring_char(j + 1, n);
                proof {
                    assert(s@.subrange(j + 1, n as int) =~= s@.skip(j + 1));
                }
                return Ok(rest);
            }
            depth = depth - 1;
        }
        j = j + 1;
    }
    Err("Unclosed attribute block".to_owned())
}

/// Skips an assignment `key=value;` and returns the remainder.
pub fn skip_assign(s: &str) -> (r: Result<&str, String>)
    ensures
        ({
            let res = spec_skip_assign(s@);
            match r {
                Ok(rest) => res == Ok::<_, Seq<char>>(rest@) && rest@.len() < s@.len(),
                Err(e) => res == Err::<Seq<char>, _>(e@),
            }
        }),
{
    let n: usize = s.unicode_len();
    let mut i: usize = 0;
    while i < n && s.get_char(i) != '='
        invariant
            n == s@.len(),
            i <= n,
            forall|k: int| 0 <= k < i ==> s@[k] != '=',
        decreases n - i,
    {
        i = i + 1;
    }
    proof {
        lemma_find_char_index(s@, 0, '=', i as int);
    }
    if i >= n {
        return Err("Expected '='".to_owned());
    }
    let mut j: usize = i + 1;
    while j < n && s.get_char(j) != ';'
        invariant
            n == s@.len(),
            i < j <= n,
            forall|k: int| i + 1 <= k < j ==> s@[k] != ';',
        decreases n - j,
    {
        j = j + 1;
    }
    proof {
        lemma_find_char_index(s@, i + 1, ';', j as int);
    }
    if j >= n {
        let rest = s.substring_char(n, n);
        proof {
            assert(s@.subrange(n as int, n as int) =~= Seq::<char>::empty());
        }
        Ok(rest)
    } else {
        let rest = s.substring_char(j + 1, n);
        proof {
            assert(s@.subrange(j + 1, n as int) =~= s@.skip(j + 1));
        }
        Ok(rest)
    }
}

/// Skips a balanced `{...}` subgraph and returns the remainder.
pub fn skip_subgraph(s: &str) -> (r: Result<&str, String>)
    ensures
        ({
            let res = spec_skip_balanced(s@, '{', '}', "Expected '{'"@, "Unclosed subgraph"@);
            match r {
                Ok(rest) => res == Ok::<_, Seq<char>>(rest@) && rest@.len() < s@.len(),
                Err(e) => res == Err::<Seq<char>, _>(e@),
            }
        }),
{
    let n: usize = s.unicode_len();
    let mut i: usize = 0;
    while i < n && s.get_char(i) != '{'
        invariant
            n == s@.len(),
            i <= n,
            forall|k: int| 0 <= k < i ==> s@[k] != '{',
        decreases n - i,
    {
        i = i + 1;
    }
    proof {
        lemma_find_char_index(s@, 0, '{', i as int);
    }
    if i >= n {
        return Err("Expected '{'".to_owned());
    }
    let mut depth: usize = 1;
    let mut j: usize = i + 1;
    while j < n
        invariant
            n == s@.len(),
            i < j <= n,
            i < n,
            spec_find_char(s@, 0, '{') == i as int,
            depth >= 1,
            depth <= j,
            spec_balanced_end(s@, i + 1, 1, '{', '}') == spec_balanced_end(
                s@,
                j as int,
                depth as int,
                '{',
                '}',
            ),
        decreases n - j,
    {
        let c = s.get_char(j);
        if c == '{' {
            depth = depth + 1;
        } else if c == '}' {
            if depth == 1 {
                let rest = s.substring_char(j + 1, n);
                proof {
                    assert(s@.subrange(j + 1, n as int) =~= s@.skip(j + 1));
                }
                return Ok(rest);
            }
            depth = depth - 1;
        }
        j = j + 1;
    }
    Err("Unclosed subgraph".to_owned())
}


/// The first index at or after `i` of a node with the id, or -1.
pub open spec fn spec_find_node(nodes: Seq<NodeView>, id: Seq<char>, i: int) -> int
    decreases nodes.len() - i,
{
    if i < 0 || i >= nodes.len() {
        -1
    } else if nodes[i].id == id {
        i
    } else {
        spec_find_node(nodes, id, i + 1)
    }
}

/// A scan that stops at `j` found the first node with the id.
proof fn lemma_find_node_index(nodes: Seq<NodeView>, id: Seq<char>, i: int, j: int)
    requires
        0 <= i <= j <= nodes.len(),
        forall|k: int| i <= k < j ==> nodes[k].id != id,
        j == nodes.len() || nodes[j].id == id,
    ensures
        spec_find_node(nodes, id, i) == (if j == nodes.len() {
            -1
        } else {
            j
        }),
    decreases j - i,
{
    if i < j {
        lemma_find_node_index(nodes, id, i + 1, j);
    }
}

/// A declared node replaces the first node with its id, or appends.
pub open spec fn spec_insert_node(nodes: Seq<NodeView>, nv: NodeView) -> Seq<NodeView> {
    let i = spec_find_node(nodes, nv.id, 0);
    if i >= 0 {
        nodes.update(i, nv)
    } else {
        nodes.push(nv)
    }
}

/// What one edge chain `t [-> t ...] [attrs]` (after its leading
/// arrow) appends and leaves: one edge per link, attributes copied to
/// all of them.
pub open spec fn spec_parse_edge_chain(
    from: Seq<char>,
    s: Seq<char>,
    targets: Seq<Seq<char>>,
    fuel: nat,
) -> Result<(Seq<EdgeView>, Seq<char>), Seq<char>>
    decreases fuel,
{
    if fuel == 0 {
        Err("Expected target node"@)
    } else {
        match spec_parse_identifier(s) {
            None => Err("Expected target node"@),
            Some((to, after)) => {
                let rt = spec_trim_start(after);
                let ts = targets.push(to);
                if rt.len() > 0 && rt[0] == '[' {
                    match spec_parse_attr_block(rt) {
                        Err(e) => Err(e),
                        Ok((attrs, rest2)) => Ok(
                            (
                                spec_chain_edges(
                                    from,
                                    ts,
                                    spec_first_value(attrs, "label"@),
                                    spec_first_value(attrs, "condition"@),
                                    (match spec_first_value(attrs, "weight"@) {
                                        Some(v) => match numbers::spec_parse_i32(v) {
                                            Some(x) => x,
                                            None => 0,
                                        },
                                        None => 0,
                                    }),
                                ),
                                spec_after_statement(rest2),
                            ),
                        ),
                    }
                } else if spec_has_prefix(rt, "->"@) {
                    spec_parse_edge_chain(from, spec_trim_start(rt.skip(2)), ts, (fuel - 1) as nat)
                } else {
                    Ok((spec_chain_edges(from, ts, None, None, 0), rt))
                }
            },
        }
    }
}

/// What one whole edge statement (starting at its `->`) appends and
/// leaves.
pub open spec fn spec_parse_edge_stmt_from(from: Seq<char>, s: Seq<char>) -> Result<
    (Seq<EdgeView>, Seq<char>),
    Seq<char>,
> {
    spec_parse_edge_chain(from, spec_trim_start(s.skip(2)), Seq::empty(), (s.len() + 1) as nat)
}

/// What one graph statement does: advance with an updated graph view
/// and a remainder, or fail with a message.
pub ghost enum SpecStmt {
    Next { g: GraphView, rest: Seq<char> },
    Fail(Seq<char>),
}

/// The meaning of one statement, mirroring the recognized forms:
/// graph attributes, skipped defaults, assignments and subgraphs, node
/// declarations, edge chains, and bare identifiers.
pub open spec fn spec_parse_statement(s: Seq<char>, g: GraphView) -> SpecStmt {
    let t = spec_trim_start(s);
    if t.len() > 0 && t[0] == '}' {
        SpecStmt::Next { g, rest: t }
    } else if spec_has_prefix(t, "graph"@) {
        match spec_parse_attr_block(spec_trim_start(t.skip(5))) {
            Err(e) => SpecStmt::Fail(e),
            Ok((attrs, rest)) => {
                let (goal, dmr) = spec_graph_attrs_fold(g.goal, g.default_max_retry, attrs);
                SpecStmt::Next {
                    g: GraphView { goal, default_max_retry: dmr, ..g },
                    rest: spec_after_statement(rest),
                }
            },
        }
    } else if spec_has_prefix(t, "node"@) || spec_has_prefix(t, "edge"@) {
        match spec_skip_balanced(t, '[', ']', "Expected '['"@, "Unclosed attribute block"@) {
            Err(e) => SpecStmt::Fail(e),
            Ok(rest) => SpecStmt::Next { g, rest },
        }
    } else if spec_has_prefix(t, "rankdir"@) {
        match spec_skip_assign(t) {
            Err(e) => SpecStmt::Fail(e),
            Ok(rest) => SpecStmt::Next { g, rest },
        }
    } else if spec_has_prefix(t, "subgraph"@) {
        match spec_skip_balanced(t, '{', '}', "Expected '{'"@, "Unclosed subgraph"@) {
            Err(e) => SpecStmt::Fail(e),
            Ok(rest) => SpecStmt::Next { g, rest },
        }
    } else {
        match spec_parse_identifier(t) {
            None => SpecStmt::Fail("Expected identifier"@),
            Some((id, after)) => {
                let rt = spec_trim_start(after);
                if rt.len() > 0 && rt[0] == '[' {
                    match spec_parse_attr_block(rt) {
                        Err(e) => SpecStmt::Fail(e),
                        Ok((attrs, rest2)) => SpecStmt::Next {
                            g: GraphView {
                                nodes: spec_insert_node(g.nodes, spec_node_of(id, attrs)),
                                ..g
                            },
                            rest: spec_after_statement(rest2),
                        },
                    }
                } else if spec_has_prefix(rt, "->"@) {
                    match spec_parse_edge_stmt_from(id, rt) {
                        Err(e) => SpecStmt::Fail(e),
                        Ok((appended, rest)) => SpecStmt::Next {
                            g: GraphView { edges: g.edges + appended, ..g },
                            rest,
                        },
                    }
                } else {
                    SpecStmt::Next { g, rest: spec_after_statement(rt) }
                }
            },
        }
    }
}

/// The statement sequence folded over the graph: stop at the closing
/// brace or the end of the text.
pub open spec fn spec_parse_statements(s: Seq<char>, g: GraphView, fuel: nat) -> Result<
    GraphView,
    Seq<char>,
> // later statements see the earlier ones' graph
    decreases fuel,
{
    if s.len() == 0 || s[0] == '}' {
        Ok(g)
    } else if fuel == 0 {
        Err("Expected identifier"@)
    } else {
        match spec_parse_statement(s, g) {
            SpecStmt::Fail(e) => Err(e),
            SpecStmt::Next { g: g2, rest } => spec_parse_statements(
                spec_trim_start(rest),
                g2,
                (fuel - 1) as nat,
            ),
        }
    }
}

/// The empty graph a parse starts from.
pub open spec fn spec_empty_graph() -> GraphView {
    GraphView {
        goal: Seq::empty(),
        default_max_retry: 50,
        nodes: Seq::empty(),
        edges: Seq::empty(),
    }
}

/// The meaning of a whole DOT source: comments stripped, the `digraph`
/// envelope checked, then the statement sequence folded over the empty
/// graph.
pub open spec fn spec_parse_dot(src: Seq<char>) -> Result<GraphView, Seq<char>> {
    let t = spec_trim(spec_strip_comments_from(src, 0));
    if !spec_has_prefix(t, "digraph"@) {
        Err("Expected 'digraph' at start"@)
    } else {
        match spec_parse_identifier(t.skip(7)) {
            None => Err("Expected graph name"@),
            Some((name, after)) => {
                let at = spec_trim_start(after);
                if !spec_has_prefix(at, "{"@) {
                    Err("Expected '{' after graph name"@)
                } else {
                    spec_parse_statements(spec_trim(at.skip(1)), spec_empty_graph(), (at.len()
                        + 1) as nat)
                }
            },
        }
    }
}

/// Parses `graph [...]` attributes and applies them to the graph.
fn parse_graph_attrs<'a>(s: &'a str, graph: &mut AttractorGraph) -> (r: Result<&'a str, String>)
    requires
        old(graph).wf(),
        spec_has_prefix(s@, "graph"@),
    ensures
        final(graph).wf(),
        final(graph).nodes == old(graph).nodes,
        final(graph).edges == old(graph).edges,
        ({
            match spec_parse_attr_block(spec_trim_start(s@.skip(5))) {
                Err(e) => r matches Err(ee) && ee@ == e && *final(graph) == *old(graph),
                Ok((attrs, rest)) => {
                    let (goal, dmr) = spec_graph_attrs_fold(
                        old(graph).goal@,
                        old(graph).default_max_retry as int,
                        attrs,
                    );
                    &&& r matches Ok(rr)
                    &&& rr@ == spec_after_statement(rest)
                    &&& rr@.len() < s@.len()
                    &&& final(graph).goal@ == goal
                    &&& final(graph).default_max_retry as int == dmr
                },
            }
        }),
{
    let body = match strutil::strip_prefix_str(s, "graph") {
        Some(rest) => rest,
        None => {
            return Err("Expected 'graph'".to_owned());
        },
    };
    proof {
        reveal_strlit("graph");
        assert(body@ == s@.skip(5));
    }
    let body_t = trim_start_str(body);
    let (attrs, rest) = match parse_attr_block(body_t) {
        Ok(p) => p,
        Err(e) => {
            return Err(e);
        },
    };
    apply_graph_attrs(attrs.as_slice(), graph);
    Ok(after_statement(rest))
}

/// Parses an edge statement `-> target [-> target ...] [attrs]` whose
/// source is `from`, and appends one edge per chain link; an attribute
/// block at the end is copied onto every edge of the chain.
fn parse_edge_stmt<'a>(from: &str, s: &'a str, graph: &mut AttractorGraph) -> (r: Result<
    &'a str,
    String,
>)
    requires
        old(graph).wf(),
        spec_has_prefix(s@, "->"@),
    ensures
        final(graph).wf(),
        final(graph).nodes == old(graph).nodes,
        final(graph).goal == old(graph).goal,
        final(graph).default_max_retry == old(graph).default_max_retry,
        final(graph).edges@.len() >= old(graph).edges@.len(),
        forall|i: int|
            0 <= i < old(graph).edges@.len() ==> final(graph).edges@[i] == old(graph).edges@[i],
        ({
            match spec_parse_edge_stmt_from(from@, s@) {
                Err(e) => r matches Err(ee) && ee@ == e && *final(graph) == *old(graph),
                Ok((appended, rest)) => {
                    &&& r matches Ok(rr)
                    &&& rr@ == rest
                    &&& rr@.len() < s@.len()
                    &&& final(graph).edges@.map_values(|e: AttractorEdge| edge_view(e)) == old(
                        graph,
                    ).edges@.map_values(|e: AttractorEdge| edge_view(e)) + appended
                },
            }
        }),
{
    let mut targets: Vec<String> = Vec::new();
    let first = match strutil::strip_prefix_str(s, "->") {
        Some(rest) => rest,
        None => {
            return Err("Expected '->'".to_owned());
        },
    };
    proof {
        reveal_strlit("->");
        assert(first@ == s@.skip(2));
    }
    let ghost fuel0 = (s@.len() + 1) as nat;
    let ghost mut spent: nat = 0;
    let mut cur: &str = trim_start_str(first);
    proof {
        assert(targets@.map_values(|t: String| t@) =~= Seq::<Seq<char>>::empty());
    }
    loop
        invariant
            *graph == *old(graph),
            graph.wf(),
            cur@.len() < s@.len(),
            spent <= fuel0,
            fuel0 - spent > cur@.len(),
            spec_parse_edge_stmt_from(from@, s@) == spec_parse_edge_chain(
                from@,
                cur@,
                targets@.map_values(|t: String| t@),
                (fuel0 - spent) as nat,
            ),
        decreases cur@.len(),
    {
        let ghost tv0 = targets@.map_values(|t: String| t@);
        let (to, after_to) = match parse_identifier(cur) {
            Some(p) => p,
            None => {
                return Err("Expected target node".to_owned());
            },
        };
        targets.push(to.to_owned());
        proof {
            assert(targets@.map_values(|t: String| t@) =~= tv0.push(to@));
        }
        let rest = trim_start_str(after_to);
        let rn: usize = rest.unicode_len();
        if rn > 0 && rest.get_char(0) == '[' {
            let (attrs, rest2) = match parse_attr_block(rest) {
                Ok(p) => p,
                Err(e) => {
                    return Err(e);
                },
            };
            let (label, condition, weight) = extract_edge_attrs(attrs.as_slice());
            push_chain_edges(graph, from, &targets, &label, &condition, weight);
            return Ok(after_statement(rest2));
        }
        let is_chain = match strutil::strip_prefix_str(rest, "->") {
            Some(more) => Some(more),
            None => None,
        };
        match is_chain {
            None => {
                let none_label: Option<String> = None;
                let none_cond: Option<String> = None;
                push_chain_edges(graph, from, &targets, &none_label, &none_cond, 0);
                return Ok(rest);
            },
            Some(more) => {
                proof {
                    reveal_strlit("->");
                    assert(more@ == rest@.skip(2));
                    spent = spent + 1;
                }
                cur = trim_start_str(more);
            },
        }
    }
}

/// Appends one edge per link of an edge chain, each carrying its own
/// copy of the same attributes.
fn push_chain_edges(
    graph: &mut AttractorGraph,
    from: &str,
    targets: &Vec<String>,
    label: &Option<String>,
    condition: &Option<String>,
    weight: i32,
)
    requires
        old(graph).wf(),
    ensures
        final(graph).wf(),
        final(graph).nodes == old(graph).nodes,
        final(graph).goal == old(graph).goal,
        final(graph).default_max_retry == old(graph).default_max_retry,
        final(graph).edges@.len() == old(graph).edges@.len() + targets@.len(),
        forall|i: int|
            0 <= i < old(graph).edges@.len() ==> final(graph).edges@[i] == old(graph).edges@[i],
        final(graph).edges@.map_values(|e: AttractorEdge| edge_view(e)) == old(
            graph,
        ).edges@.map_values(|e: AttractorEdge| edge_view(e)) + spec_chain_edges(
            from@,
            targets@.map_values(|t: String| t@),
            strutil::opt_view(*label),
            strutil::opt_view(*condition),
            weight as int,
        ),
{
    let ghost tv = targets@.map_values(|t: String| t@);
    let ghost base = old(graph).edges@.map_values(|e: AttractorEdge| edge_view(e));
    let n = targets.len();
    let mut i: usize = 0;
    proof {
        assert(base + spec_chain_edges(
            from@,
            tv.take(0),
            strutil::opt_view(*label),
            strutil::opt_view(*condition),
            weight as int,
        ) =~= base);
    }
    while i < n
        invariant
            tv == targets@.map_values(|t: String| t@),
            base == old(graph).edges@.map_values(|e: AttractorEdge| edge_view(e)),
            n == targets@.len(),
            i <= n,
            graph.wf(),
            graph.nodes == old(graph).nodes,
            graph.goal == old(graph).goal,
            graph.default_max_retry == old(graph).default_max_retry,
            graph.edges@.len() == old(graph).edges@.len() + i,
            forall|k: int|
                0 <= k < old(graph).edges@.len() ==> graph.edges@[k] == old(graph).edges@[k],
            graph.edges@.map_values(|e: AttractorEdge| edge_view(e)) == base + spec_chain_edges(
                from@,
                tv.take(i as int),
                strutil::opt_view(*label),
                strutil::opt_view(*condition),
                weight as int,
            ),
        decreases n - i,
    {
        proof {
            assert(tv.take(i + 1).drop_last() =~= tv.take(i as int));
            assert(tv.take(i + 1).last() == tv[i as int]);
        }
        let prev: String = if i == 0 {
            from.to_owned()
        } else {
            targets[i - 1].clone()
        };
        let e = AttractorEdge {
            from_node: prev,
            to_node: targets[i].clone(),
            label: strutil::clone_opt_string(label),
            condition: strutil::clone_opt_string(condition),
            weight,
        };
        let ghost pushed = edge_view(e);
        graph.edges.push(e);
        proof {
            let lbl = strutil::opt_view(*label);
            let cnd = strutil::opt_view(*condition);
            let w = weight as int;
            assert(pushed.to_node == tv[i as int]);
            assert(pushed.label == lbl && pushed.condition == cnd && pushed.weight == w);
            if i == 0 {
                assert(pushed.from_node == from@);
            } else {
                assert(pushed.from_node == tv[i - 1]);
            }
            let t1 = tv.take(i + 1);
            assert(t1.len() == i + 1);
            let spec_elem = EdgeView {
                from_node: if t1.len() == 1 {
                    from@
                } else {
                    t1[t1.len() - 2]
                },
                to_node: t1.last(),
                label: lbl,
                condition: cnd,
                weight: w,
            };
            assert(spec_chain_edges(from@, t1, lbl, cnd, w) == spec_chain_edges(
                from@,
                t1.drop_last(),
                lbl,
                cnd,
                w,
            ).push(spec_elem));
            assert(pushed =~~= spec_elem);
            assert(pushed == spec_elem);
            assert(t1.drop_last() =~= tv.take(i as int));
            assert(t1.drop_last() == tv.take(i as int));
            assert(spec_chain_edges(from@, t1.drop_last(), lbl, cnd, w) == spec_chain_edges(
                from@,
                tv.take(i as int),
                lbl,
                cnd,
                w,
            ));
            assert(spec_chain_edges(from@, tv.take(i + 1), lbl, cnd, w) == spec_chain_edges(
                from@,
                tv.take(i as int),
                lbl,
                cnd,
                w,
            ).push(pushed));
            assert(base + spec_chain_edges(from@, tv.take(i + 1), lbl, cnd, w) =~= (base
                + spec_chain_edges(from@, tv.take(i as int), lbl, cnd, w)).push(pushed));
            assert(graph.edges@.map_values(|e: AttractorEdge| edge_view(e)) =~~= base
                + spec_chain_edges(from@, tv.take(i + 1), lbl, cnd, w));
        }
        i = i + 1;
    }
    proof {
        assert(tv.take(n as int) =~= tv);
    }
}

/// Parses a single graph statement and updates the graph; returns the
/// unconsumed remainder.
fn parse_statement<'a>(s: &'a str, graph: &mut AttractorGraph) -> (r: Result<&'a str, String>)
    requires
        old(graph).wf(),
    ensures
        final(graph).wf(),
        ({
            match spec_parse_statement(s@, graph_view(*old(graph))) {
                SpecStmt::Next { g, rest } => {
                    &&& r matches Ok(rr)
                    &&& rr@ == rest
                    &&& graph_view(*final(graph)) == g
                    &&& rr@.len() <= s@.len()
                    &&& (rr@.len() < s@.len() || (rr@.len() > 0 && rr@[0] == '}'))
                },
                SpecStmt::Fail(e) => r matches Err(ee) && ee@ == e,
            }
        }),
{
    let ghost g0 = graph_view(*graph);
    let t = trim_start_str(s);
    let n: usize = t.unicode_len();
    if n > 0 && t.get_char(0) == '}' {
        return Ok(t);
    }
    if strutil::has_prefix(t, "graph") {
        proof {
            reveal_strlit("graph");
        }
        return match parse_graph_attrs(t, graph) {
            Ok(rest) => {
                proof {
                    assert(graph_view(*graph) =~~= (match spec_parse_statement(s@, g0) {
                        SpecStmt::Next { g, .. } => g,
                        SpecStmt::Fail(_) => graph_view(*graph),
                    }));
                }
                Ok(rest)
            },
            Err(e) => Err(e),
        };
    }
    if strutil::has_prefix(t, "node") || strutil::has_prefix(t, "edge") {
        return match skip_attr_block(t) {
            Ok(rest) => Ok(rest),
            Err(e) => Err(e),
        };
    }
    if strutil::has_prefix(t, "rankdir") {
        return match skip_assign(t) {
            Ok(rest) => Ok(rest),
            Err(e) => Err(e),
        };
    }
    if strutil::has_prefix(t, "subgraph") {
        return match skip_subgraph(t) {
            Ok(rest) => Ok(rest),
            Err(e) => Err(e),
        };
    }
    let (id, after_id) = match parse_identifier(t) {
        Some(p) => p,
        None => {
            return Err("Expected identifier".to_owned());
        },
    };
    let rest = trim_start_str(after_id);
    let rn: usize = rest.unicode_len();
    if rn > 0 && rest.get_char(0) == '[' {
        let (attrs, rest2) = match parse_attr_block(rest) {
            Ok(p) => p,
            Err(e) => {
                return Err(e);
            },
        };
        let node = match parse_node_attrs(id, attrs.as_slice()) {
            Ok(nd) => nd,
            Err(e) => {
                return Err(e);
            },
        };
        let ghost nv = spec_node_of(id@, attrs_view(attrs@));
        proof {
            assert(node_view(node) =~~= nv);
        }
        let ghost before = graph.nodes.seq();
        graph.nodes.insert(node);
        proof {
            let nodes0 = g0.nodes;
            if exists|j: int| 0 <= j < before.len() && (#[trigger] before[j]).id@ == node.id@ {
                let j = choose|j: int|
                    0 <= j < before.len() && (#[trigger] before[j]).id@ == node.id@
                        && (forall|k: int| 0 <= k < j ==> before[k].id@ != node.id@)
                        && graph.nodes.seq() == before.update(j, node);
                assert forall|k: int| 0 <= k < j implies nodes0[k].id != nv.id by {
                    assert(nodes0[k] == node_view(before[k]));
                }
                lemma_find_node_index(nodes0, nv.id, 0, j);
                assert(graph.nodes.seq().map_values(|x: AttractorNode| node_view(x))
                    =~~= spec_insert_node(nodes0, nv));
            } else {
                assert forall|k: int| 0 <= k < before.len() implies nodes0[k].id != nv.id by {
                    assert(nodes0[k] == node_view(before[k]));
                }
                lemma_find_node_index(nodes0, nv.id, 0, before.len() as int);
                assert(graph.nodes.seq().map_values(|x: AttractorNode| node_view(x))
                    =~~= spec_insert_node(nodes0, nv));
            }
            assert(graph_view(*graph) =~~= GraphView {
                nodes: spec_insert_node(g0.nodes, nv),
                ..g0
            });
        }
        return Ok(after_statement(rest2));
    }
    if strutil::has_prefix(rest, "->") {
        return match parse_edge_stmt(id, rest, graph) {
            Ok(r2) => {
                proof {
                    match spec_parse_edge_stmt_from(id@, rest@) {
                        Ok((appended, _)) => {
                            assert(graph_view(*graph) =~~= GraphView {
                                edges: g0.edges + appended,
                                ..g0
                            });
                        },
                        Err(_) => {},
                    }
                }
                Ok(r2)
            },
            Err(e) => Err(e),
        };
    }
    Ok(after_statement(rest))
}

/// Parses a DOT source string into a workflow graph, or reports the
/// first failure. The result is pinned to the spec-level parse: the
/// same goal, retry bound, node table and edge sequence, or the same
/// error message.
pub fn parse_dot(source: &str) -> (r: Result<AttractorGraph, String>)
    ensures
        match r {
            Ok(g) => spec_parse_dot(source@) == Ok::<_, Seq<char>>(graph_view(g)) && g.wf(),
            Err(e) => spec_parse_dot(source@) == Err::<GraphView, _>(e@),
        },
        !spec_has_prefix(spec_trim(spec_strip_comments_from(source@, 0)), "digraph"@) ==> (
        r matches Err(e) && e@ == "Expected 'digraph' at start"@),
{
    let stripped = strip_comments(source);
    let src: &str = strutil::trim_str(stripped.as_str());
    if !strutil::has_prefix(src, "digraph") {
        return Err("Expected 'digraph' at start".to_owned());
    }
    let src_n: usize = src.unicode_len();
    proof {
        reveal_strlit("digraph");
    }
    let after_kw = src.substring_char(7, src_n);
    proof {
        assert(after_kw@ =~= src@.skip(7));
    }
    let (_name, after_name) = match parse_identifier(after_kw) {
        Some(p) => p,
        None => {
            return Err("Expected graph name".to_owned());
        },
    };
    let after_name_t = trim_start_str(after_name);
    let body = match strutil::strip_prefix_str(after_name_t, "{") {
        Some(rest) => rest,
        None => {
            return Err("Expected '{' after graph name".to_owned());
        },
    };
    proof {
        reveal_strlit("{");
        assert(body@ == after_name_t@.skip(1));
    }
    let mut graph = AttractorGraph {
        goal: String::new(),
        nodes: crate::types::attractor_graph::NodeTable::new(),
        edges: Vec::new(),
        default_max_retry: 50,
    };
    proof {
        assert(graph_view(graph) =~~= spec_empty_graph());
    }
    let ghost fuel0 = (after_name_t@.len() + 1) as nat;
    let ghost mut spent: nat = 0;
    let mut remaining: &str = strutil::trim_str(body);
    proof {
        lemma_trim_le(body@);
    }
    loop
        invariant
            graph.wf(),
            spent <= fuel0,
            fuel0 - spent > remaining@.len(),
            spec_has_prefix(spec_trim(spec_strip_comments_from(source@, 0)), "digraph"@),
            spec_parse_dot(source@) == spec_parse_statements(
                remaining@,
                graph_view(graph),
                (fuel0 - spent) as nat,
            ),
        decreases remaining@.len(),
    {
        let n: usize = remaining.unicode_len();
        if n == 0 || remaining.get_char(0) == '}' {
            proof {
                assert(spec_parse_statements(
                    remaining@,
                    graph_view(graph),
                    (fuel0 - spent) as nat,
                ) == Ok::<_, Seq<char>>(graph_view(graph)));
            }
            return Ok(graph);
        }
        let ghost gv0 = graph_view(graph);
        let ghost fuel_here = (fuel0 - spent) as nat;
        let rest = match parse_statement(remaining, &mut graph) {
            Ok(r2) => r2,
            Err(e) => {
                return Err(e);
            },
        };
        let rest2 = trim_start_str(rest);
        let rn: usize = rest2.unicode_len();
        proof {
            assert(spec_parse_statements(remaining@, gv0, fuel_here) == spec_parse_statements(
                rest2@,
                graph_view(graph),
                (fuel_here - 1) as nat,
            ));
        }
        if rn == 0 || rest2.get_char(0) == '}' {
            proof {
                assert(spec_parse_statements(rest2@, graph_view(graph), (fuel_here - 1) as nat)
                    == Ok::<_, Seq<char>>(graph_view(graph)));
                spent = spent + 1;
            }
            return Ok(graph);
        }
        proof {
            if rest@.len() > 0 && rest@[0] == '}' {
                assert(rest2@ == rest@);
            }
            spent = spent + 1;
        }
        remaining = rest2;
    }
}

/// Trimming both ends never lengthens a string.
proof fn lemma_trim_le(s: Seq<char>)
    ensures
        spec_trim(s).len() <= s.len(),
{
    lemma_trim_start_le(s);
    lemma_strip_end_le(spec_trim_start(s));
}

/// Dropping a trailing run never lengthens a string.
proof fn lemma_strip_end_le(s: Seq<char>)
    ensures
        strutil::spec_strip_end_while(s, |c: char| strutil::spec_is_space(c)).len() <= s.len(),
    decreases s.len(),
{
    if s.len() > 0 && strutil::spec_is_space(s.last()) {
        lemma_strip_end_le(s.drop_last());
    }
}

} // verus!
