//! Text rendering used by the response bodies and the metrics exposition:
//! decimal numbers and JSON string escaping, stated character by character.

use vstd::prelude::*;

verus! {

/// Relies on String::push: appends exactly the given character to the string.
pub assume_specification[ String::push ](s: &mut String, c: char)
    ensures
        final(s)@ == old(s)@ + seq![c],
;

/// String equality over the character sequences, for dispatch and parsing.
pub fn str_eq(a: &str, b: &str) -> (r: bool)
    ensures
        r == (a@ == b@),
{
    let owned_a: String = a.to_owned();
    let owned_b: String = b.to_owned();
    owned_a == owned_b
}

/// The text a boolean renders as.
pub open spec fn bool_rep(b: bool) -> Seq<char> {
    if b {
        "true"@
    } else {
        "false"@
    }
}

/// The literal a boolean renders as.
pub fn bool_str(b: bool) -> (r: &'static str)
    ensures
        r@ == bool_rep(b),
{
    if b {
        "true"
    } else {
        "false"
    }
}

/// The character for one decimal digit.
pub open spec fn dec_digit(d: int) -> char {
    if d == 0 { '0' }
    else if d == 1 { '1' }
    else if d == 2 { '2' }
    else if d == 3 { '3' }
    else if d == 4 { '4' }
    else if d == 5 { '5' }
    else if d == 6 { '6' }
    else if d == 7 { '7' }
    else if d == 8 { '8' }
    else { '9' }
}

/// The decimal representation of a non-negative number, most significant
/// digit first, with no leading zeroes (a single zero for zero itself).
pub open spec fn dec_rep(n: nat) -> Seq<char>
    decreases n,
{
    if n < 10 {
        seq![dec_digit(n as int)]
    } else {
        dec_rep(n / 10) + seq![dec_digit((n % 10) as int)]
    }
}

/// The decimal representation of a signed number: a minus sign before the
/// magnitude when it is negative.
pub open spec fn dec_rep_signed(n: int) -> Seq<char> {
    if n < 0 {
        seq!['-'] + dec_rep((-n) as nat)
    } else {
        dec_rep(n as nat)
    }
}

/// The character for one hexadecimal digit, lower case.
pub open spec fn hex_digit(d: int) -> char {
    if d < 10 { dec_digit(d) }
    else if d == 10 { 'a' }
    else if d == 11 { 'b' }
    else if d == 12 { 'c' }
    else if d == 13 { 'd' }
    else if d == 14 { 'e' }
    else { 'f' }
}

/// How one character appears inside a JSON string literal: quotes and
/// backslashes are escaped, control characters take the universal escape,
/// everything else stands as itself.
pub open spec fn json_escape_char(c: char) -> Seq<char> {
    if c == '"' {
        seq!['\\', '"']
    } else if c == '\\' {
        seq!['\\', '\\']
    } else if (c as u32) < 0x20 {
        seq!['\\', 'u', '0', '0'] + seq![hex_digit(c as int / 16), hex_digit(c as int % 16)]
    } else {
        seq![c]
    }
}

/// How a whole string appears inside a JSON string literal.
pub open spec fn json_escape(s: Seq<char>) -> Seq<char>
    decreases s.len(),
{
    if s.len() == 0 {
        Seq::empty()
    } else {
        json_escape(s.drop_last()) + json_escape_char(s.last())
    }
}

/// The digit character for a value below ten.
fn dec_digit_str(d: u64) -> (r: &'static str)
    requires
        d < 10,
    ensures
        r@ == seq![dec_digit(d as int)],
{
    proof {
        reveal_strlit("0");
        reveal_strlit("1");
        reveal_strlit("2");
        reveal_strlit("3");
        reveal_strlit("4");
        reveal_strlit("5");
        reveal_strlit("6");
        reveal_strlit("7");
        reveal_strlit("8");
        reveal_strlit("9");
    }
    match d {
        0 => "0",
        1 => "1",
        2 => "2",
        3 => "3",
        4 => "4",
        5 => "5",
        6 => "6",
        7 => "7",
        8 => "8",
        _ => "9",
    }
}

/// Appends the decimal representation of a non-negative number.
pub fn push_dec(out: &mut String, n: u64)
    ensures
        final(out)@ == old(out)@ + dec_rep(n as nat),
    decreases n,
{
    if n >= 10 {
        proof {
            assert(n / 10 < n) by (nonlinear_arith)
                requires n >= 10;
        }
        push_dec(out, n / 10);
    }
    let d: u64 = n % 10;
    out.append(dec_digit_str(d));
    proof {
        if n >= 10 {
            assert(old(out)@ + dec_rep((n / 10) as nat) + seq![dec_digit((n % 10) as int)]
                =~= old(out)@ + dec_rep(n as nat));
        }
    }
}

/// Appends the decimal representation of a signed number.
pub fn push_dec_signed(out: &mut String, n: i64)
    ensures
        final(out)@ == old(out)@ + dec_rep_signed(n as int),
{
    if n < 0 {
        out.push('-');
        let magnitude: u64 = (-(n as i128)) as u64;
        assert(magnitude == -(n as int));
        push_dec(out, magnitude);
        proof {
            assert(old(out)@ + seq!['-'] + dec_rep(magnitude as nat)
                =~= old(out)@ + dec_rep_signed(n as int));
        }
    } else {
        push_dec(out, n as u64);
    }
}

/// Appends one character as it appears inside a JSON string literal.
fn push_json_escaped_char(out: &mut String, c: char)
    ensures
        final(out)@ == old(out)@ + json_escape_char(c),
{
    if c == '"' {
        out.push('\\');
        out.push('"');
        assert(old(out)@ + seq!['\\'] + seq!['"'] =~= old(out)@ + json_escape_char(c));
    } else if c == '\\' {
        out.push('\\');
        out.push('\\');
        assert(old(out)@ + seq!['\\'] + seq!['\\'] =~= old(out)@ + json_escape_char(c));
    } else if (c as u32) < 0x20 {
        out.push('\\');
        out.push('u');
        out.push('0');
        out.push('0');
        let code: u64 = (c as u32 / 16) as u64;
        out.append(dec_digit_str(code));
        let low: u32 = c as u32 % 16;
        if low < 10 {
            out.append(dec_digit_str(low as u64));
        } else if low == 10 {
            out.push('a');
        } else if low == 11 {
            out.push('b');
        } else if low == 12 {
            out.push('c');
        } else if low == 13 {
            out.push('d');
        } else if low == 14 {
            out.push('e');
        } else {
            out.push('f');
        }
        assert(final(out)@ =~= old(out)@ + json_escape_char(c));
    } else {
        out.push(c);
        assert(old(out)@ + seq![c] =~= old(out)@ + json_escape_char(c));
    }
}

/// Appends a whole string as it appears inside a JSON string literal,
/// without the surrounding quotes.
pub fn push_json_escaped(out: &mut String, s: &str)
    ensures
        final(out)@ == old(out)@ + json_escape(s@),
{
    let len: usize = s.unicode_len();
    let mut i: usize = 0;
    while i < len
        invariant
            i <= len,
            len == s@.len(),
            out@ == old(out)@ + json_escape(s@.take(i as int)),
        decreases len - i,
    {
        let c: char = s.get_char(i);
        proof {
            assert(s@.take(i + 1).drop_last() =~= s@.take(i as int));
            assert(s@.take(i + 1).last() == s@[i as int]);
        }
        push_json_escaped_char(out, c);
        proof {
            assert(out@ =~= old(out)@ + json_escape(s@.take(i + 1)));
        }
        i = i + 1;
    }
    proof {
        assert(s@.take(len as int) =~= s@);
    }
}

} // verus!
