//! Text encoding primitives for the wire format: decimal renderings of
//! integers, boolean keywords, and JSON string escaping.

use vstd::prelude::*;

verus! {

/// The character for one decimal digit value.
pub open spec fn dec_digit(d: nat) -> char {
    if d == 0 {
        '0'
    } else if d == 1 {
        '1'
    } else if d == 2 {
        '2'
    } else if d == 3 {
        '3'
    } else if d == 4 {
        '4'
    } else if d == 5 {
        '5'
    } else if d == 6 {
        '6'
    } else if d == 7 {
        '7'
    } else if d == 8 {
        '8'
    } else {
        '9'
    }
}

/// The canonical decimal rendering of a natural number: no sign, no
/// leading zeros, and a single `0` for zero itself.
pub open spec fn dec_digits(n: nat) -> Seq<char>
    decreases n,
{
    if n < 10 {
        seq![dec_digit(n)]
    } else {
        dec_digits(n / 10).push(dec_digit(n % 10))
    }
}

/// The canonical decimal rendering of an integer: a leading `-` for
/// negative values, then the digits of the magnitude.
pub open spec fn dec_int(i: int) -> Seq<char> {
    if i < 0 {
        seq!['-'] + dec_digits((-i) as nat)
    } else {
        dec_digits(i as nat)
    }
}

/// The lowercase keyword for a boolean.
pub open spec fn bool_text(b: bool) -> Seq<char> {
    if b {
        "true"@
    } else {
        "false"@
    }
}

/// Whether a character is a decimal digit.
pub open spec fn is_digit_char(c: char) -> bool {
    48 <= c as u32 && c as u32 <= 57
}

/// Whether a string is a canonical decimal rendering of a non-negative
/// integer: non-empty, digits only, and no leading zero except for zero.
pub open spec fn is_decimal_text(s: Seq<char>) -> bool {
    &&& s.len() > 0
    &&& forall|i: int| 0 <= i < s.len() ==> is_digit_char(#[trigger] s[i])
    &&& s.len() > 1 ==> s[0] != '0'
}

/// The number of consecutive decimal digits at the front of a string.
pub open spec fn leading_digits(t: Seq<char>) -> int
    decreases t.len(),
{
    if t.len() == 0 || !is_digit_char(t[0]) {
        0
    } else {
        1 + leading_digits(t.skip(1))
    }
}

/// Whether a string is the plain decimal rendering of a finite float: an
/// optional minus sign, a canonical integer part, and optionally a dot
/// followed by at least one digit. This is the shape a finite float's
/// display rendering takes, and a valid JSON number.
pub open spec fn is_float_text(s: Seq<char>) -> bool {
    let t = if s.len() > 0 && s[0] == '-' {
        s.skip(1)
    } else {
        s
    };
    let k = leading_digits(t);
    if k == t.len() {
        is_decimal_text(t)
    } else {
        is_decimal_text(t.take(k)) && t[k] == '.' && t.len() > k + 1 && leading_digits(
            t.skip(k + 1),
        ) == t.len() - (k + 1)
    }
}

/// The leading digit run of a string: every character before it is a
/// digit, and the character right after it, if any, is not.
pub proof fn lemma_leading_digits(t: Seq<char>)
    ensures
        0 <= leading_digits(t) <= t.len(),
        forall|j: int| 0 <= j < leading_digits(t) ==> is_digit_char(#[trigger] t[j]),
        leading_digits(t) < t.len() ==> !is_digit_char(t[leading_digits(t)]),
    decreases t.len(),
{
    if t.len() == 0 || !is_digit_char(t[0]) {
    } else {
        lemma_leading_digits(t.skip(1));
        let k = leading_digits(t);
        assert(k == 1 + leading_digits(t.skip(1)));
        assert forall|j: int| 0 <= j < k implies is_digit_char(#[trigger] t[j]) by {
            if j > 0 {
                assert(t[j] == t.skip(1)[j - 1]);
            }
        }
        if k < t.len() {
            assert(t[k] == t.skip(1)[k - 1]);
        }
    }
}

/// Counts the consecutive decimal digits in a string from the given
/// position on.
pub(crate) fn digit_run_len(s: &str, from: usize) -> (k: usize)
    requires
        from <= s@.len(),
    ensures
        k == leading_digits(s@.skip(from as int)),
        from + k <= s@.len(),
    decreases s@.len() - from,
{
    let n: usize = s.unicode_len();
    if from < n {
        let c = s.get_char(from);
        let v: u32 = c as u32;
        if 48 <= v && v <= 57 {
            let rest = digit_run_len(s, from + 1);
            proof {
                assert(s@.skip(from as int).skip(1) =~= s@.skip(from as int + 1));
                assert(s@.skip(from as int)[0] == s@[from as int]);
            }
            return 1 + rest;
        }
    }
    proof {
        if (from as int) < s@.len() {
            assert(s@.skip(from as int)[0] == s@[from as int]);
        } else {
            assert(s@.skip(from as int).len() == 0);
        }
    }
    0
}

/// The character for one hexadecimal digit value, lowercase.
pub open spec fn hex_digit(d: nat) -> char {
    if d < 10 {
        dec_digit(d)
    } else if d == 10 {
        'a'
    } else if d == 11 {
        'b'
    } else if d == 12 {
        'c'
    } else if d == 13 {
        'd'
    } else if d == 14 {
        'e'
    } else {
        'f'
    }
}

/// The JSON escape of one character inside a string literal: the special
/// two-character escapes, `\u00..` for the remaining control characters,
/// and the character itself otherwise.
pub open spec fn esc_char(c: char) -> Seq<char> {
    if c == '"' {
        seq!['\\', '"']
    } else if c == '\\' {
        seq!['\\', '\\']
    } else if c == '\u{8}' {
        seq!['\\', 'b']
    } else if c == '\t' {
        seq!['\\', 't']
    } else if c == '\n' {
        seq!['\\', 'n']
    } else if c == '\u{c}' {
        seq!['\\', 'f']
    } else if c == '\r' {
        seq!['\\', 'r']
    } else if (c as u32) < 32 {
        seq!['\\', 'u', '0', '0', hex_digit((c as u32 / 16) as nat), hex_digit(
            (c as u32 % 16) as nat,
        )]
    } else {
        seq![c]
    }
}

/// The JSON escape of a whole string body (without the surrounding quotes).
pub open spec fn json_escaped(s: Seq<char>) -> Seq<char>
    decreases s.len(),
{
    if s.len() == 0 {
        Seq::empty()
    } else {
        json_escaped(s.drop_last()) + esc_char(s.last())
    }
}

/// A JSON string literal: the escaped body between double quotes.
pub open spec fn json_string(s: Seq<char>) -> Seq<char> {
    seq!['"'] + json_escaped(s) + seq!['"']
}

/// The decimal rendering of any natural number is canonical decimal text,
/// and the rendering of a positive number never starts with a zero.
pub proof fn lemma_dec_digits_is_decimal(n: nat)
    ensures
        is_decimal_text(dec_digits(n)),
        n > 0 ==> dec_digits(n)[0] != '0',
    decreases n,
{
    if n < 10 {
        assert(is_digit_char(dec_digit(n)));
    } else {
        lemma_dec_digits_is_decimal(n / 10);
        assert(is_digit_char(dec_digit(n % 10)));
        assert(dec_digits(n) == dec_digits(n / 10).push(dec_digit(n % 10)));
    }
}

/// JSON escaping leaves a string of decimal digits unchanged: no digit
/// needs an escape.
pub proof fn lemma_json_escape_digits(s: Seq<char>)
    requires
        forall|i: int| 0 <= i < s.len() ==> is_digit_char(#[trigger] s[i]),
    ensures
        json_escaped(s) == s,
    decreases s.len(),
{
    if s.len() == 0 {
        assert(json_escaped(s) =~= s);
    } else {
        lemma_json_escape_digits(s.drop_last());
        assert(is_digit_char(s.last()));
        assert(esc_char(s.last()) =~= seq![s.last()]);
        assert(json_escaped(s) =~= s);
    }
}

/// The one-character string for a decimal digit value.
fn digit_str(d: u64) -> (r: &'static str)
    requires
        d < 10,
    ensures
        r@ == seq![dec_digit(d as nat)],
{
    let r: &'static str = if d == 0 {
        "0"
    } else if d == 1 {
        "1"
    } else if d == 2 {
        "2"
    } else if d == 3 {
        "3"
    } else if d == 4 {
        "4"
    } else if d == 5 {
        "5"
    } else if d == 6 {
        "6"
    } else if d == 7 {
        "7"
    } else if d == 8 {
        "8"
    } else {
        "9"
    };
    proof {
        reveal_strlit("0");
        reveal_strlit("1");
        reveal_strlit("2");
        reveal_strlit("3");
        reveal_strlit("4");
        reveal_strlit("5");
        reveal_strlit("6");
        reveal_strlit("7");
        reveal_strlit("8");
        reveal_strlit("9");
        assert(r@ =~= seq![dec_digit(d as nat)]);
    }
    r
}

/// The one-character string for a hexadecimal digit value, lowercase.
fn hex_digit_str(d: u32) -> (r: &'static str)
    requires
        d < 16,
    ensures
        r@ == seq![hex_digit(d as nat)],
{
    if d < 10 {
        digit_str(d as u64)
    } else {
        let r: &'static str = if d == 10 {
            "a"
        } else if d == 11 {
            "b"
        } else if d == 12 {
            "c"
        } else if d == 13 {
            "d"
        } else if d == 14 {
            "e"
        } else {
            "f"
        };
        proof {
            reveal_strlit("a");
            reveal_strlit("b");
            reveal_strlit("c");
            reveal_strlit("d");
            reveal_strlit("e");
            reveal_strlit("f");
            assert(r@ =~= seq![hex_digit(d as nat)]);
        }
        r
    }
}

/// The lowercase keyword string for a boolean.
pub fn bool_str(b: bool) -> (r: &'static str)
    ensures
        r@ == bool_text(b),
{
    if b {
        "true"
    } else {
        "false"
    }
}

/// Appends the decimal rendering of an unsigned number.
pub fn push_u64_decimal(s: &mut String, n: u64)
    ensures
        final(s)@ == old(s)@ + dec_digits(n as nat),
    decreases n,
{
    if n < 10 {
        s.append(digit_str(n));
    } else {
        push_u64_decimal(s, n / 10);
        s.append(digit_str(n % 10));
        proof {
            assert(s@ =~= old(s)@ + dec_digits(n as nat));
        }
    }
}

/// Appends the decimal rendering of a signed number.
pub fn push_i64_decimal(s: &mut String, n: i64)
    ensures
        final(s)@ == old(s)@ + dec_int(n as int),
{
    if n < 0 {
        s.append("-");
        let m: u64 = (-(n as i128)) as u64;
        push_u64_decimal(s, m);
        proof {
            reveal_strlit("-");
            assert(s@ =~= old(s)@ + dec_int(n as int));
        }
    } else {
        push_u64_decimal(s, n as u64);
    }
}

/// Relies on std's `String::push`: appends exactly the one character.
#[verifier::external_body]
fn push_char(s: &mut String, c: char)
    ensures
        final(s)@ == old(s)@ + seq![c],
{
    s.push(c)
}

/// Appends the JSON escape of one character.
fn push_escaped_char(s: &mut String, c: char)
    ensures
        final(s)@ == old(s)@ + esc_char(c),
{
    if c == '"' {
        s.append("\\\"");
        proof {
            reveal_strlit("\\\"");
            assert(s@ =~= old(s)@ + esc_char(c));
        }
    } else if c == '\\' {
        s.append("\\\\");
        proof {
            reveal_strlit("\\\\");
            assert(s@ =~= old(s)@ + esc_char(c));
        }
    } else if c == '\u{8}' {
        s.append("\\b");
        proof {
            reveal_strlit("\\b");
            assert(s@ =~= old(s)@ + esc_char(c));
        }
    } else if c == '\t' {
        s.append("\\t");
        proof {
            reveal_strlit("\\t");
            assert(s@ =~= old(s)@ + esc_char(c));
        }
    } else if c == '\n' {
        s.append("\\n");
        proof {
            reveal_strlit("\\n");
            assert(s@ =~= old(s)@ + esc_char(c));
        }
    } else if c == '\u{c}' {
        s.append("\\f");
        proof {
            reveal_strlit("\\f");
            assert(s@ =~= old(s)@ + esc_char(c));
        }
    } else if c == '\r' {
        s.append("\\r");
        proof {
            reveal_strlit("\\r");
            assert(s@ =~= old(s)@ + esc_char(c));
        }
    } else if (c as u32) < 32 {
        let v: u32 = c as u32;
        s.append("\\u00");
        s.append(hex_digit_str(v / 16));
        s.append(hex_digit_str(v % 16));
        proof {
            reveal_strlit("\\u00");
            assert(s@ =~= old(s)@ + esc_char(c));
        }
    } else {
        push_char(s, c);
        proof {
            assert(s@ =~= old(s)@ + esc_char(c));
        }
    }
}

/// Appends the JSON escape of a whole string body.
pub fn push_escaped_str(s: &mut String, t: &str)
    ensures
        final(s)@ == old(s)@ + json_escaped(t@),
{
    let n: usize = t.unicode_len();
    let mut i: usize = 0;
    while i < n
        invariant
            n == t@.len(),
            i <= n,
            s@ == old(s)@ + json_escaped(t@.take(i as int)),
        decreases n - i,
    {
        let c = t.get_char(i);
        push_escaped_char(s, c);
        proof {
            assert(t@.take(i as int + 1).drop_last() =~= t@.take(i as int));
            assert(t@.take(i as int + 1).last() == c);
            assert(s@ =~= old(s)@ + json_escaped(t@.take(i as int + 1)));
        }
        i = i + 1;
    }
    proof {
        assert(t@.take(n as int) =~= t@);
    }
}

/// Appends a JSON string literal: a quote, the escaped body, a quote.
pub fn push_json_string(s: &mut String, t: &str)
    ensures
        final(s)@ == old(s)@ + json_string(t@),
{
    s.append("\"");
    push_escaped_str(s, t);
    s.append("\"");
    proof {
        reveal_strlit("\"");
        assert(s@ =~= old(s)@ + json_string(t@));
    }
}

} // verus!
