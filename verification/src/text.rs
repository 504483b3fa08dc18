//! Rendering of the plain values that the wire bodies carry: unsigned
//! decimals, millisecond fixed-point numbers, and JSON string escaping.

use vstd::prelude::*;

verus! {

/// The character for one decimal digit; values of ten and above map to '0'
/// so the function stays total.
pub open spec fn digit(d: nat) -> char {
    if d == 0 {
        '0'
    } else if d == 1 {
        '1'
    } else if d == 2 {
        '2'
    } else if d == 3 {
        '3'
    } else if d == 4 {
        '4'
    } else if d == 5 {
        '5'
    } else if d == 6 {
        '6'
    } else if d == 7 {
        '7'
    } else if d == 8 {
        '8'
    } else if d == 9 {
        '9'
    } else {
        '0'
    }
}

/// The usual decimal rendering of a natural number, without sign or padding.
pub open spec fn dec_str(n: nat) -> Seq<char>
    decreases n,
{
    if n < 10 {
        seq![digit(n)]
    } else {
        dec_str(n / 10) + seq![digit(n % 10)]
    }
}

/// A count of milliseconds rendered as seconds with a decimal point: the
/// integer part, a '.', and one to three fractional digits with trailing
/// zeros removed (at least one digit always remains).
pub open spec fn frac3(f: nat) -> Seq<char> {
    if f == 0 {
        seq!['0']
    } else if f % 100 == 0 {
        seq![digit(f / 100)]
    } else if f % 10 == 0 {
        seq![digit(f / 100), digit((f / 10) % 10)]
    } else {
        seq![digit(f / 100), digit((f / 10) % 10), digit(f % 10)]
    }
}

/// Milliseconds rendered as decimal seconds, e.g. 10000 -> "10.0".
pub open spec fn fixed3(v: nat) -> Seq<char> {
    dec_str(v / 1000) + seq!['.'] + frac3(v % 1000)
}

/// How one character appears inside a JSON string literal.
pub open spec fn escape_char(c: char) -> Seq<char> {
    if c == '"' {
        "\\\""@
    } else if c == '\\' {
        "\\\\"@
    } else if c == '\n' {
        "\\n"@
    } else if c == '\r' {
        "\\r"@
    } else if c == '\t' {
        "\\t"@
    } else if c == '\u{0008}' {
        "\\b"@
    } else if c == '\u{000C}' {
        "\\f"@
    } else if (c as u32) < 0x20 {
        "\\u00"@ + seq![digit(((c as u32) / 16) as nat), hex_digit(((c as u32) % 16) as nat)]
    } else {
        seq![c]
    }
}

/// The character for one hexadecimal digit (lower case); values of sixteen
/// and above map to '0' so the function stays total.
pub open spec fn hex_digit(d: nat) -> char {
    if d < 10 {
        digit(d)
    } else if d == 10 {
        'a'
    } else if d == 11 {
        'b'
    } else if d == 12 {
        'c'
    } else if d == 13 {
        'd'
    } else if d == 14 {
        'e'
    } else if d == 15 {
        'f'
    } else {
        '0'
    }
}

/// A whole string escaped for use inside a JSON string literal.
pub open spec fn escape_str(s: Seq<char>) -> Seq<char>
    decreases s.len(),
{
    if s.len() == 0 {
        Seq::empty()
    } else {
        escape_char(s[0]) + escape_str(s.drop_first())
    }
}

proof fn lemma_escape_str_push(s: Seq<char>, c: char)
    ensures
        escape_str(s.push(c)) == escape_str(s) + escape_char(c),
    decreases s.len(),
{
    if s.len() == 0 {
        assert(s.push(c)[0] == c);
        assert(s.push(c).drop_first() =~= Seq::<char>::empty());
        assert(escape_str(s.push(c)) == escape_char(c) + escape_str(Seq::<char>::empty()));
        assert(escape_char(c) + Seq::<char>::empty() =~= Seq::<char>::empty() + escape_char(c));
        assert(escape_str(s) + escape_char(c) =~= Seq::<char>::empty() + escape_char(c));
    } else {
        assert(s.push(c)[0] == s[0]);
        assert(s.push(c).drop_first() =~= s.drop_first().push(c));
        lemma_escape_str_push(s.drop_first(), c);
        assert(escape_str(s.push(c)) =~= escape_str(s) + escape_char(c));
    }
}

/// Relies on std's String::push: appends exactly the given character.
#[verifier::external_body]
pub(crate) fn push_char(s: &mut String, c: char)
    ensures
        final(s)@ == old(s)@ + seq![c],
{
    s.push(c);
}

fn digit_char(d: u64) -> (c: char)
    requires
        d < 10,
    ensures
        c == digit(d as nat),
{
    match d {
        0 => '0',
        1 => '1',
        2 => '2',
        3 => '3',
        4 => '4',
        5 => '5',
        6 => '6',
        7 => '7',
        8 => '8',
        _ => '9',
    }
}

fn hex_digit_char(d: u32) -> (c: char)
    requires
        d < 16,
    ensures
        c == hex_digit(d as nat),
{
    match d {
        0 => '0',
        1 => '1',
        2 => '2',
        3 => '3',
        4 => '4',
        5 => '5',
        6 => '6',
        7 => '7',
        8 => '8',
        9 => '9',
        10 => 'a',
        11 => 'b',
        12 => 'c',
        13 => 'd',
        14 => 'e',
        _ => 'f',
    }
}

/// Appends the decimal rendering of `n`.
pub fn append_dec(out: &mut String, n: u64)
    ensures
        final(out)@ == old(out)@ + dec_str(n as nat),
    decreases n,
{
    if n < 10 {
        push_char(out, digit_char(n));
    } else {
        assert(n / 10 < n);
        append_dec(out, n / 10);
        push_char(out, digit_char(n % 10));
        assert(out@ =~= old(out)@ + dec_str(n as nat));
    }
}

/// Appends `v` milliseconds rendered as decimal seconds.
pub fn append_fixed3(out: &mut String, v: u64)
    ensures
        final(out)@ == old(out)@ + fixed3(v as nat),
{
    append_dec(out, v / 1000);
    push_char(out, '.');
    let f = v % 1000;
    if f == 0 {
        push_char(out, '0');
    } else if f % 100 == 0 {
        push_char(out, digit_char(f / 100));
    } else if f % 10 == 0 {
        push_char(out, digit_char(f / 100));
        push_char(out, digit_char((f / 10) % 10));
    } else {
        push_char(out, digit_char(f / 100));
        push_char(out, digit_char((f / 10) % 10));
        push_char(out, digit_char(f % 10));
    }
    assert(out@ =~= old(out)@ + fixed3(v as nat));
}

fn append_escaped_char(out: &mut String, c: char)
    ensures
        final(out)@ == old(out)@ + escape_char(c),
{
    if c == '"' {
        out.append("\\\"");
    } else if c == '\\' {
        out.append("\\\\");
    } else if c == '\n' {
        out.append("\\n");
    } else if c == '\r' {
        out.append("\\r");
    } else if c == '\t' {
        out.append("\\t");
    } else if c == '\u{0008}' {
        out.append("\\b");
    } else if c == '\u{000C}' {
        out.append("\\f");
    } else if (c as u32) < 0x20 {
        out.append("\\u00");
        push_char(out, digit_char(((c as u32) / 16) as u64));
        push_char(out, hex_digit_char((c as u32) % 16));
        assert(out@ =~= old(out)@ + escape_char(c));
    } else {
        push_char(out, c);
    }
}

/// Appends `s` escaped for use inside a JSON string literal.
pub fn append_escaped(out: &mut String, s: &str)
    ensures
        final(out)@ == old(out)@ + escape_str(s@),
{
    let ghost base: Seq<char> = out@;
    let n = s.unicode_len();
    let mut i: usize = 0;
    proof {
        assert(s@.subrange(0, 0) =~= Seq::<char>::empty());
        assert(base + escape_str(Seq::<char>::empty()) =~= base);
    }
    while i < n
        invariant
            n == s@.len(),
            i <= n,
            out@ == base + escape_str(s@.subrange(0, i as int)),
        decreases n - i,
    {
        let c = s.get_char(i);
        append_escaped_char(out, c);
        proof {
            lemma_escape_str_push(s@.subrange(0, i as int), c);
            assert(s@.subrange(0, i as int).push(c) =~= s@.subrange(0, (i + 1) as int));
        }
        i = i + 1;
    }
    proof {
        assert(s@.subrange(0, n as int) =~= s@);
    }
}

} // verus!
