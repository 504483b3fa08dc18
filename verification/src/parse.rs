//! A parser for the JSON responses the service sends back: a single flat
//! object whose values are strings or bare scalars (numbers, booleans,
//! null).  The spec functions give the grammar; the executable functions
//! are proved to follow it exactly.

use vstd::prelude::*;

use crate::text::push_char;

verus! {

pub open spec fn is_ws(c: char) -> bool {
    c == ' ' || c == '\t' || c == '\n' || c == '\r'
}

/// The first position at or after `i` that does not hold whitespace.
pub open spec fn skip_ws(s: Seq<char>, i: int) -> int
    decreases s.len() - i,
{
    if 0 <= i < s.len() && is_ws(s[i]) {
        skip_ws(s, i + 1)
    } else {
        i
    }
}

proof fn lemma_skip_ws_bounds(s: Seq<char>, i: int)
    requires
        0 <= i <= s.len(),
    ensures
        i <= skip_ws(s, i) <= s.len(),
    decreases s.len() - i,
{
    if i < s.len() && is_ws(s[i]) {
        lemma_skip_ws_bounds(s, i + 1);
    }
}

/// What a backslash escape inside a JSON string stands for; `None` for an
/// escape this parser does not accept (among them `\u`).
pub open spec fn unescape_char(c: char) -> Option<char> {
    if c == '"' {
        Some('"')
    } else if c == '\\' {
        Some('\\')
    } else if c == '/' {
        Some('/')
    } else if c == 'n' {
        Some('\n')
    } else if c == 't' {
        Some('\t')
    } else if c == 'r' {
        Some('\r')
    } else if c == 'b' {
        Some('\u{0008}')
    } else if c == 'f' {
        Some('\u{000C}')
    } else {
        None
    }
}

/// Parses the rest of a JSON string literal, starting just after the opening
/// quote; returns the position just after the closing quote and the
/// unescaped contents.
pub open spec fn parse_string_body(s: Seq<char>, i: int) -> Option<(int, Seq<char>)>
    decreases s.len() - i,
{
    if !(0 <= i < s.len()) {
        None
    } else if s[i] == '"' {
        Some((i + 1, Seq::empty()))
    } else if s[i] == '\\' {
        if i + 1 < s.len() {
            match unescape_char(s[i + 1]) {
                Some(u) => match parse_string_body(s, i + 2) {
                    Some(p) => Some((p.0, seq![u] + p.1)),
                    None => None,
                },
                None => None,
            }
        } else {
            None
        }
    } else {
        match parse_string_body(s, i + 1) {
            Some(p) => Some((p.0, seq![s[i]] + p.1)),
            None => None,
        }
    }
}

proof fn lemma_parse_string_body_bounds(s: Seq<char>, i: int)
    ensures
        parse_string_body(s, i) matches Some(p) ==> i < p.0 <= s.len(),
    decreases s.len() - i,
{
    if 0 <= i < s.len() {
        if s[i] == '"' {
        } else if s[i] == '\\' {
            if i + 1 < s.len() {
                lemma_parse_string_body_bounds(s, i + 2);
            }
        } else {
            lemma_parse_string_body_bounds(s, i + 1);
        }
    }
}

/// A character that may appear in a bare scalar token (a number, `true`,
/// `false` or `null`): anything but whitespace and JSON punctuation.
pub open spec fn is_scalar_char(c: char) -> bool {
    !is_ws(c) && c != '"' && c != '{' && c != '}' && c != '[' && c != ']' && c != ':' && c != ','
}

/// The end of the run of scalar characters that starts at `i`.
pub open spec fn scan_scalar(s: Seq<char>, i: int) -> int
    decreases s.len() - i,
{
    if 0 <= i < s.len() && is_scalar_char(s[i]) {
        scan_scalar(s, i + 1)
    } else {
        i
    }
}

proof fn lemma_scan_scalar_bounds(s: Seq<char>, i: int)
    requires
        0 <= i <= s.len(),
    ensures
        i <= scan_scalar(s, i) <= s.len(),
    decreases s.len() - i,
{
    if i < s.len() && is_scalar_char(s[i]) {
        lemma_scan_scalar_bounds(s, i + 1);
    }
}

/// Parses one member value: a quoted string (whose contents are returned)
/// or a nonempty bare scalar (which is accepted and skipped).
pub open spec fn parse_value(s: Seq<char>, i: int) -> Option<(int, Option<Seq<char>>)> {
    if 0 <= i < s.len() && s[i] == '"' {
        match parse_string_body(s, i + 1) {
            Some(p) => Some((p.0, Some(p.1))),
            None => None,
        }
    } else {
        let j = scan_scalar(s, i);
        if j > i {
            Some((j, None))
        } else {
            None
        }
    }
}

proof fn lemma_parse_value_bounds(s: Seq<char>, i: int)
    requires
        0 <= i <= s.len(),
    ensures
        parse_value(s, i) matches Some(p) ==> i < p.0 <= s.len(),
{
    if i < s.len() && s[i] == '"' {
        lemma_parse_string_body_bounds(s, i + 1);
    } else {
        lemma_scan_scalar_bounds(s, i);
    }
}

/// Parses a nonempty member list `"key": value {, "key": value} }`,
/// whitespace allowed around every token, up to and including the closing
/// brace; returns the position just after it and the members in order.
pub open spec fn parse_members(s: Seq<char>, i: int) -> Option<
    (int, Seq<(Seq<char>, Option<Seq<char>>)>),
>
    decreases s.len() - i,
        when 0 <= i <= s.len()
    via parse_members_decreases
{
    let i1 = skip_ws(s, i);
    if !(i1 < s.len() && s[i1] == '"') {
        None
    } else {
        match parse_string_body(s, i1 + 1) {
            None => None,
            Some(pk) => {
                let i3 = skip_ws(s, pk.0);
                if !(i3 < s.len() && s[i3] == ':') {
                    None
                } else {
                    match parse_value(s, skip_ws(s, i3 + 1)) {
                        None => None,
                        Some(pv) => {
                            let i6 = skip_ws(s, pv.0);
                            if i6 < s.len() && s[i6] == ',' {
                                match parse_members(s, i6 + 1) {
                                    Some(pr) => Some((pr.0, seq![(pk.1, pv.1)] + pr.1)),
                                    None => None,
                                }
                            } else if i6 < s.len() && s[i6] == '}' {
                                Some((i6 + 1, seq![(pk.1, pv.1)]))
                            } else {
                                None
                            }
                        },
                    }
                }
            },
        }
    }
}

#[via_fn]
proof fn parse_members_decreases(s: Seq<char>, i: int) {
    lemma_skip_ws_bounds(s, i);
    let i1 = skip_ws(s, i);
    if i1 < s.len() && s[i1] == '"' {
        lemma_parse_string_body_bounds(s, i1 + 1);
        match parse_string_body(s, i1 + 1) {
            None => {},
            Some(pk) => {
                lemma_skip_ws_bounds(s, pk.0);
                let i3 = skip_ws(s, pk.0);
                if i3 < s.len() && s[i3] == ':' {
                    lemma_skip_ws_bounds(s, i3 + 1);
                    let i4 = skip_ws(s, i3 + 1);
                    lemma_parse_value_bounds(s, i4);
                    match parse_value(s, i4) {
                        None => {},
                        Some(pv) => {
                            lemma_skip_ws_bounds(s, pv.0);
                        },
                    }
                }
            },
        }
    }
}

/// Parses a whole response body: one flat JSON object, with nothing but
/// whitespace after it.
pub open spec fn parse_object(s: Seq<char>) -> Option<Seq<(Seq<char>, Option<Seq<char>>)>> {
    let i0 = skip_ws(s, 0);
    if !(i0 < s.len() && s[i0] == '{') {
        None
    } else {
        let i1 = skip_ws(s, i0 + 1);
        if i1 < s.len() && s[i1] == '}' {
            if skip_ws(s, i1 + 1) == s.len() {
                Some(Seq::empty())
            } else {
                None
            }
        } else {
            match parse_members(s, i0 + 1) {
                Some(p) => if skip_ws(s, p.0) == s.len() {
                    Some(p.1)
                } else {
                    None
                },
                None => None,
            }
        }
    }
}

/// The value of the first member named `key`, if that value is a string.
pub open spec fn lookup_string(
    ms: Seq<(Seq<char>, Option<Seq<char>>)>,
    key: Seq<char>,
) -> Option<Seq<char>>
    decreases ms.len(),
{
    if ms.len() == 0 {
        None
    } else if ms[0].0 == key {
        ms[0].1
    } else {
        lookup_string(ms.drop_first(), key)
    }
}

/// The string value bound to `key` in the body, if the body is a flat JSON
/// object that binds `key` to a string.
pub open spec fn string_field(s: Seq<char>, key: Seq<char>) -> Option<Seq<char>> {
    match parse_object(s) {
        Some(ms) => lookup_string(ms, key),
        None => None,
    }
}

fn skip_ws_x(s: &str, n: usize, i: usize) -> (r: usize)
    requires
        n == s@.len(),
        i <= n,
    ensures
        r as int == skip_ws(s@, i as int),
        i <= r <= n,
    decreases n - i,
{
    if i < n {
        let c = s.get_char(i);
        if c == ' ' || c == '\t' || c == '\n' || c == '\r' {
            return skip_ws_x(s, n, i + 1);
        }
    }
    i
}

fn unescape_char_x(c: char) -> (r: Option<char>)
    ensures
        r == unescape_char(c),
{
    if c == '"' {
        Some('"')
    } else if c == '\\' {
        Some('\\')
    } else if c == '/' {
        Some('/')
    } else if c == 'n' {
        Some('\n')
    } else if c == 't' {
        Some('\t')
    } else if c == 'r' {
        Some('\r')
    } else if c == 'b' {
        Some('\u{0008}')
    } else if c == 'f' {
        Some('\u{000C}')
    } else {
        None
    }
}

fn parse_string_body_x(s: &str, n: usize, i: usize, out: &mut String) -> (r: Option<usize>)
    requires
        n == s@.len(),
        i <= n,
    ensures
        (parse_string_body(s@, i as int) is Some) == (r is Some),
        r matches Some(j) ==> parse_string_body(s@, i as int) matches Some(p) && p.0 == j as int
            && j <= n && final(out)@ == old(out)@ + p.1,
    decreases n - i,
{
    if i >= n {
        return None;
    }
    let c = s.get_char(i);
    if c == '"' {
        proof {
            assert(old(out)@ + Seq::<char>::empty() =~= old(out)@);
        }
        Some(i + 1)
    } else if c == '\\' {
        if i + 1 < n {
            let e = s.get_char(i + 1);
            match unescape_char_x(e) {
                Some(u) => {
                    push_char(out, u);
                    let r2 = parse_string_body_x(s, n, i + 2, out);
                    proof {
                        match parse_string_body(s@, (i + 2) as int) {
                            Some(p) => {
                                assert(old(out)@ + (seq![u] + p.1) =~= (old(out)@ + seq![u])
                                    + p.1);
                            },
                            None => {},
                        }
                    }
                    r2
                },
                None => None,
            }
        } else {
            None
        }
    } else {
        push_char(out, c);
        let r2 = parse_string_body_x(s, n, i + 1, out);
        proof {
            match parse_string_body(s@, (i + 1) as int) {
                Some(p) => {
                    assert(old(out)@ + (seq![c] + p.1) =~= (old(out)@ + seq![c]) + p.1);
                },
                None => {},
            }
        }
        r2
    }
}

fn scan_scalar_x(s: &str, n: usize, i: usize) -> (r: usize)
    requires
        n == s@.len(),
        i <= n,
    ensures
        r as int == scan_scalar(s@, i as int),
        i <= r <= n,
    decreases n - i,
{
    if i < n {
        let c = s.get_char(i);
        if !(c == ' ' || c == '\t' || c == '\n' || c == '\r') && c != '"' && c != '{' && c != '}'
            && c != '[' && c != ']' && c != ':' && c != ',' {
            return scan_scalar_x(s, n, i + 1);
        }
    }
    i
}

fn parse_value_x(s: &str, n: usize, i: usize) -> (r: Option<(usize, Option<String>)>)
    requires
        n == s@.len(),
        i <= n,
    ensures
        (parse_value(s@, i as int) is Some) == (r is Some),
        r matches Some(rv) ==> parse_value(s@, i as int) matches Some(p) && p.0 == rv.0 as int
            && rv.0 <= n && (match rv.1 {
            Some(vs) => p.1 matches Some(ps) && vs@ == ps,
            None => p.1 is None,
        }),
{
    if i < n && s.get_char(i) == '"' {
        let mut acc = String::new();
        let rb = parse_string_body_x(s, n, i + 1, &mut acc);
        match rb {
            Some(j) => {
                proof {
                    assert(Seq::<char>::empty() + parse_string_body(
                        s@,
                        (i + 1) as int,
                    )->Some_0.1 =~= parse_string_body(s@, (i + 1) as int)->Some_0.1);
                }
                Some((j, Some(acc)))
            },
            None => None,
        }
    } else {
        let j = scan_scalar_x(s, n, i);
        if j > i {
            Some((j, None))
        } else {
            None
        }
    }
}

fn parse_members_x(s: &str, n: usize, i: usize, key: &String) -> (r: Option<
    (usize, Option<String>),
>)
    requires
        n == s@.len(),
        i <= n,
    ensures
        (parse_members(s@, i as int) is Some) == (r is Some),
        r matches Some(rv) ==> parse_members(s@, i as int) matches Some(p) && p.0 == rv.0 as int
            && rv.0 <= n && (match rv.1 {
            Some(v) => lookup_string(p.1, key@) matches Some(lv) && v@ == lv,
            None => lookup_string(p.1, key@) is None,
        }),
    decreases n - i,
{
    let i1 = skip_ws_x(s, n, i);
    if !(i1 < n) {
        return None;
    }
    if s.get_char(i1) != '"' {
        return None;
    }
    let mut kacc = String::new();
    let rk = parse_string_body_x(s, n, i1 + 1, &mut kacc);
    match rk {
        None => None,
        Some(i2) => {
            proof {
                assert(Seq::<char>::empty() + parse_string_body(
                    s@,
                    (i1 + 1) as int,
                )->Some_0.1 =~= parse_string_body(s@, (i1 + 1) as int)->Some_0.1);
            }
            let i3 = skip_ws_x(s, n, i2);
            if !(i3 < n) {
                return None;
            }
            if s.get_char(i3) != ':' {
                return None;
            }
            let i4 = skip_ws_x(s, n, i3 + 1);
            let rv = parse_value_x(s, n, i4);
            match rv {
                None => None,
                Some((i5, val)) => {
                    let i6 = skip_ws_x(s, n, i5);
                    proof {
                        lemma_parse_string_body_bounds(s@, (i1 + 1) as int);
                        lemma_parse_value_bounds(s@, i4 as int);
                    }
                    if i6 < n && s.get_char(i6) == ',' {
                        let rr = parse_members_x(s, n, i6 + 1, key);
                        match rr {
                            None => None,
                            Some((j, rest_found)) => {
                                let hit = kacc == *key;
                                let sel = if hit {
                                    val
                                } else {
                                    rest_found
                                };
                                proof {
                                    let ghost pk = parse_string_body(s@, (i1 + 1) as int)->Some_0;
                                    let ghost pv = parse_value(s@, i4 as int)->Some_0;
                                    let ghost pr = parse_members(s@, (i6 + 1) as int)->Some_0;
                                    let ghost ms = seq![(pk.1, pv.1)] + pr.1;
                                    assert(ms[0] == (pk.1, pv.1));
                                    assert(ms.drop_first() =~= pr.1);
                                }
                                Some((j, sel))
                            },
                        }
                    } else if i6 < n && s.get_char(i6) == '}' {
                        let hit = kacc == *key;
                        let sel = if hit {
                            val
                        } else {
                            None
                        };
                        proof {
                            let ghost pk = parse_string_body(s@, (i1 + 1) as int)->Some_0;
                            let ghost pv = parse_value(s@, i4 as int)->Some_0;
                            let ghost ms = seq![(pk.1, pv.1)];
                            assert(ms[0] == (pk.1, pv.1));
                            assert(ms.drop_first() =~= Seq::<(Seq<char>, Option<Seq<char>>)>::empty());
                            assert(lookup_string(
                                Seq::<(Seq<char>, Option<Seq<char>>)>::empty(),
                                key@,
                            ) is None);
                        }
                        Some((i6 + 1, sel))
                    } else {
                        None
                    }
                },
            }
        },
    }
}

/// The string value bound to `key` in `body`, if `body` is a flat JSON
/// object that binds `key` to a string; `None` otherwise.
pub fn extract_string_field(body: &str, key: &str) -> (r: Option<String>)
    ensures
        (string_field(body@, key@) is Some) == (r is Some),
        r matches Some(rs) ==> string_field(body@, key@) matches Some(v) && rs@ == v,
{
    let n = body.unicode_len();
    let key_s = String::from_str(key);
    let i0 = skip_ws_x(body, n, 0);
    if !(i0 < n) {
        return None;
    }
    if body.get_char(i0) != '{' {
        return None;
    }
    let i1 = skip_ws_x(body, n, i0 + 1);
    if i1 < n && body.get_char(i1) == '}' {
        let e = skip_ws_x(body, n, i1 + 1);
        if e == n {
            proof {
                assert(parse_object(body@) == Some(Seq::<(Seq<char>, Option<Seq<char>>)>::empty()));
            }
            None
        } else {
            None
        }
    } else {
        let rm = parse_members_x(body, n, i0 + 1, &key_s);
        match rm {
            None => None,
            Some((j, found)) => {
                let e = skip_ws_x(body, n, j);
                if e == n {
                    found
                } else {
                    None
                }
            },
        }
    }
}

} // verus!
