//! Verified parsers for the attribute value texts that the response
//! documents carry: unsigned integers, booleans, and numeric text
//! in the float grammar (coordinates are kept as their validated
//! text, since this crate holds no floating point).

use vstd::prelude::*;
use vstd::utf8::encode_utf8;

verus! {

/// Exact string comparison against a literal.
pub fn eq_str(a: &String, b: &str) -> (r: bool)
    ensures
        r == (a@ == b@),
{
    let bs: String = b.to_owned();
    *a == bs
}

pub open spec fn is_digit(c: char) -> bool {
    '0' <= c && c <= '9'
}

pub open spec fn digit_val(c: char) -> nat {
    (c as int - '0' as int) as nat
}

pub open spec fn all_digits(s: Seq<char>) -> bool {
    forall|i: int| 0 <= i < s.len() ==> is_digit(#[trigger] s[i])
}

/// The value of a digit string, most significant digit first.
pub open spec fn digits_value(s: Seq<char>) -> nat
    decreases s.len(),
{
    if s.len() == 0 {
        0
    } else {
        digits_value(s.drop_last()) * 10 + digit_val(s.last())
    }
}

/// The digits of an unsigned-integer text: an optional leading `+`
/// sign is allowed, as `usize::from_str` allows it.
pub open spec fn unsigned_digits(s: Seq<char>) -> Seq<char> {
    if s.len() >= 1 && s[0] == '+' {
        s.skip(1)
    } else {
        s
    }
}

/// Whether a text denotes a `usize`: at least one digit after the
/// optional sign, digits only, and a value that fits.
pub open spec fn is_usize_text(s: Seq<char>) -> bool {
    &&& unsigned_digits(s).len() >= 1
    &&& all_digits(unsigned_digits(s))
    &&& digits_value(unsigned_digits(s)) <= usize::MAX
}

pub open spec fn spec_parse_usize(s: Seq<char>) -> Option<usize> {
    if is_usize_text(s) {
        Some(digits_value(unsigned_digits(s)) as usize)
    } else {
        None
    }
}

/// Appending digits never lowers the value.
proof fn lemma_digits_value_take_le(s: Seq<char>, j: int)
    requires
        0 <= j <= s.len(),
    ensures
        digits_value(s.take(j)) <= digits_value(s),
    decreases s.len() - j,
{
    if j < s.len() {
        assert(s.take(j + 1).drop_last() =~= s.take(j));
        assert(s.take(j + 1).last() == s[j]);
        assert(digits_value(s.take(j)) <= digits_value(s.take(j + 1)));
        lemma_digits_value_take_le(s, j + 1);
    } else {
        assert(s.take(j) =~= s);
    }
}

/// Parses an unsigned integer exactly as `usize::from_str` accepts it:
/// an optional `+`, then decimal digits, rejecting overflow.
#[verifier::loop_isolation(false)]
pub fn parse_usize(s: &str) -> (r: Option<usize>)
    ensures
        r == spec_parse_usize(s@),
{
    let n: usize = s.unicode_len();
    let start: usize = if n >= 1 && s.get_char(0) == '+' {
        1
    } else {
        0
    };
    let ghost t = unsigned_digits(s@);
    assert(t =~= s@.skip(start as int));
    if start >= n {
        assert(t.len() == 0);
        return None;
    }
    let mut acc: usize = 0;
    let mut i: usize = start;
    while i < n
        invariant
            start <= i <= n,
            n == s@.len(),
            t == s@.skip(start as int),
            t.len() == n - start,
            forall|k: int| 0 <= k < i - start ==> is_digit(#[trigger] t[k]),
            acc == digits_value(t.take(i - start)),
        decreases n - i,
    {
        let c = s.get_char(i);
        assert(t[i - start] == c);
        if !('0' <= c && c <= '9') {
            assert(!is_digit(t[i as int - start as int]));
            return None;
        }
        let d: usize = (c as usize) - ('0' as usize);
        let acc10 = match acc.checked_mul(10) {
            Some(v) => v,
            None => {
                proof {
                    assert(t.take(i - start + 1).drop_last() =~= t.take(i - start));
                    assert(digits_value(t.take(i - start + 1)) > usize::MAX);
                    lemma_digits_value_take_le(t, i - start + 1);
                }
                return None;
            },
        };
        let sum = match acc10.checked_add(d) {
            Some(v) => v,
            None => {
                proof {
                    assert(t.take(i - start + 1).drop_last() =~= t.take(i - start));
                    assert(t.take(i - start + 1).last() == t[i - start]);
                    assert(digits_value(t.take(i - start + 1)) > usize::MAX);
                    lemma_digits_value_take_le(t, i - start + 1);
                }
                return None;
            },
        };
        proof {
            assert(t.take(i - start + 1).drop_last() =~= t.take(i - start));
            assert(t.take(i - start + 1).last() == t[i - start]);
        }
        acc = sum;
        i = i + 1;
    }
    assert(t.take(n - start) =~= t);
    Some(acc)
}

pub open spec fn spec_parse_bool(s: Seq<char>) -> Option<bool> {
    if s == "true"@ {
        Some(true)
    } else if s == "false"@ {
        Some(false)
    } else {
        None
    }
}

/// Parses a boolean exactly as `bool::from_str` accepts it: the two
/// texts `true` and `false`, nothing else.
pub fn parse_bool(s: &str) -> (r: Option<bool>)
    ensures
        r == spec_parse_bool(s@),
{
    let v: String = s.to_owned();
    if v == "true".to_owned() {
        Some(true)
    } else if v == "false".to_owned() {
        Some(false)
    } else {
        None
    }
}

/// The first position at or after `i` that does not hold a digit.
pub open spec fn digits_end(t: Seq<char>, i: int) -> int
    decreases t.len() - i,
{
    if 0 <= i < t.len() && is_digit(t[i]) {
        digits_end(t, i + 1)
    } else {
        i
    }
}

/// An exponent part at position `i`: `e` or `E`, an optional sign,
/// then digits through the end, at least one.
pub open spec fn exp_at(t: Seq<char>, i: int) -> bool {
    if 0 <= i < t.len() && (t[i] == 'e' || t[i] == 'E') {
        let j = if i + 1 < t.len() && (t[i + 1] == '+' || t[i + 1] == '-') {
            i + 2
        } else {
            i + 1
        };
        digits_end(t, j) == t.len() && t.len() > j
    } else {
        false
    }
}

/// The numeric alternative of the float grammar, after the optional
/// sign: digits, an optional dot with optional fraction digits, or a
/// dot with required fraction digits, then an optional exponent; at
/// least one digit somewhere before the exponent.
pub open spec fn numeric_body(t: Seq<char>) -> bool {
    let d1 = digits_end(t, 0);
    if d1 >= t.len() {
        d1 >= 1
    } else if t[d1] == '.' {
        let d2 = digits_end(t, d1 + 1);
        let has_digit = d1 >= 1 || d2 >= d1 + 2;
        if d2 >= t.len() {
            has_digit
        } else {
            has_digit && exp_at(t, d2)
        }
    } else {
        d1 >= 1 && exp_at(t, d1)
    }
}

/// ASCII lower-casing of one character.
pub open spec fn lower_char(c: char) -> char {
    if 'A' <= c && c <= 'Z' {
        (((c as u8) + 32) as u8) as char
    } else {
        c
    }
}

/// The keyword alternative of the float grammar, after the optional
/// sign: `inf`, `infinity` or `nan` in any letter case.
pub open spec fn is_float_keyword(t: Seq<char>) -> bool {
    ||| t.map_values(|c: char| lower_char(c)) == "inf"@
    ||| t.map_values(|c: char| lower_char(c)) == "infinity"@
    ||| t.map_values(|c: char| lower_char(c)) == "nan"@
}

/// The digits of a signed numeric text: one optional leading sign.
pub open spec fn signed_body(s: Seq<char>) -> Seq<char> {
    if s.len() >= 1 && (s[0] == '+' || s[0] == '-') {
        s.skip(1)
    } else {
        s
    }
}

/// Whether a text is well-formed numeric input, exactly the texts
/// the float grammar accepts: an optional sign, then either one of
/// the keywords or a number with optional fraction and exponent.
pub open spec fn is_numeric_text(s: Seq<char>) -> bool {
    is_float_keyword(signed_body(s)) || numeric_body(signed_body(s))
}

/// Checks that a text is well-formed numeric input.
#[verifier::rlimit(50)]
pub fn check_numeric(s: &str) -> (r: bool)
    ensures
        r == is_numeric_text(s@),
{
    let n: usize = s.unicode_len();
    let start: usize = if n >= 1 && (s.get_char(0) == '+' || s.get_char(0) == '-') {
        1
    } else {
        0
    };
    let ghost t = signed_body(s@);
    assert(t =~= s@.skip(start as int));
    // the keyword alternative: compare the lower-cased remainder
    let mut low: String = String::new();
    let mut i: usize = start;
    while i < n
        invariant
            start <= i <= n,
            n == s@.len(),
            t == s@.skip(start as int),
            t.len() == n - start,
            low@ == t.take(i - start).map_values(|c: char| lower_char(c)),
        decreases n - i,
    {
        let c = s.get_char(i);
        assert(t[i - start] == c);
        let lc: char = if 'A' <= c && c <= 'Z' {
            ((c as u8) + 32) as char
        } else {
            c
        };
        let ghost pre = low@;
        push_char(&mut low, lc);
        proof {
            assert(t.take(i - start + 1).drop_last() =~= t.take(i - start));
            assert(t.take(i - start + 1).map_values(|c: char| lower_char(c)) =~= t.take(
                i - start,
            ).map_values(|c: char| lower_char(c)).push(lower_char(t[i - start])));
        }
        i = i + 1;
    }
    assert(t.take(n - start) =~= t);
    if low == "inf".to_owned() || low == "infinity".to_owned() || low == "nan".to_owned() {
        return true;
    }
    assert(!is_float_keyword(t));
    // the numeric alternative: integer digits
    let mut i: usize = start;
    loop
        invariant_except_break
            start <= i <= n,
            n == s@.len(),
            t == s@.skip(start as int),
            t.len() == n - start,
            digits_end(t, 0) == digits_end(t, i - start),
        ensures
            start <= i <= n,
            n == s@.len(),
            t == s@.skip(start as int),
            t.len() == n - start,
            digits_end(t, 0) == i - start,
        decreases n - i,
    {
        if i >= n {
            assert(digits_end(t, i - start) == i - start);
            break;
        }
        let c = s.get_char(i);
        assert(t[i - start] == c);
        if !('0' <= c && c <= '9') {
            assert(digits_end(t, i - start) == i - start);
            break;
        }
        i = i + 1;
    }
    let d1: usize = i;
    if d1 >= n {
        // digits ran to the end: valid iff there was at least one
        return d1 > start;
    }
    let c = s.get_char(d1);
    assert(t[d1 - start] == c);
    if c == '.' {
        // fraction digits
        let mut i: usize = d1 + 1;
        loop
            invariant_except_break
                d1 + 1 <= i <= n,
                n == s@.len(),
                t == s@.skip(start as int),
                t.len() == n - start,
                start <= d1 < n,
                digits_end(t, d1 + 1 - start) == digits_end(t, i - start),
            ensures
                d1 + 1 <= i <= n,
                n == s@.len(),
                t == s@.skip(start as int),
                t.len() == n - start,
                start <= d1 < n,
                digits_end(t, d1 + 1 - start) == i - start,
            decreases n - i,
        {
            if i >= n {
                assert(digits_end(t, i - start) == i - start);
                break;
            }
            let c2 = s.get_char(i);
            assert(t[i - start] == c2);
            if !('0' <= c2 && c2 <= '9') {
                assert(digits_end(t, i - start) == i - start);
                break;
            }
            i = i + 1;
        }
        let d2: usize = i;
        let has_digit = d1 > start || d2 >= d1 + 2;
        if d2 >= n {
            return has_digit;
        }
        has_digit && check_exp(s, start, d2, Ghost(t))
    } else {
        d1 > start && check_exp(s, start, d1, Ghost(t))
    }
}

/// Checks an exponent part at position `e`.
fn check_exp(s: &str, start: usize, e: usize, t: Ghost<Seq<char>>) -> (r: bool)
    requires
        t@ == signed_body(s@),
        t@ == s@.skip(start as int),
        start <= e < s@.len(),
        t@.len() == s@.len() - start,
    ensures
        r == exp_at(t@, e - start),
{
    let n: usize = s.unicode_len();
    let c = s.get_char(e);
    assert(t@[e - start] == c);
    if !(c == 'e' || c == 'E') {
        return false;
    }
    let j: usize = if e + 1 < n {
        let cs = s.get_char(e + 1);
        assert(t@[e + 1 - start] == cs);
        if cs == '+' || cs == '-' {
            e + 2
        } else {
            e + 1
        }
    } else {
        e + 1
    };
    let mut i: usize = j;
    loop
        invariant_except_break
            j <= i <= n,
            n == s@.len(),
            t@ == s@.skip(start as int),
            t@.len() == n - start,
            start <= j <= n,
            digits_end(t@, j - start) == digits_end(t@, i - start),
        ensures
            j <= i <= n,
            n == s@.len(),
            t@ == s@.skip(start as int),
            t@.len() == n - start,
            start <= j <= n,
            digits_end(t@, j - start) == i - start,
        decreases n - i,
    {
        if i >= n {
            assert(digits_end(t@, i - start) == i - start);
            break;
        }
        let c2 = s.get_char(i);
        assert(t@[i - start] == c2);
        if !('0' <= c2 && c2 <= '9') {
            assert(digits_end(t@, i - start) == i - start);
            break;
        }
        i = i + 1;
    }
    i >= n && n > j
}

pub open spec fn strs_view(v: Seq<String>) -> Seq<Seq<char>> {
    v.map_values(|s: String| s@)
}

/// The digit character of a value below ten.
pub open spec fn digit_char(d: nat) -> char {
    ((d + 48) as u8) as char
}

/// The decimal text of a number, most significant digit first.
pub open spec fn spec_nat_digits(n: nat) -> Seq<char>
    decreases n,
{
    if n < 10 {
        seq![digit_char(n)]
    } else {
        spec_nat_digits(n / 10).push(digit_char(n % 10))
    }
}

/// The text of one digit.
fn digit_to_str(d: usize) -> (r: &'static str)
    requires
        d < 10,
    ensures
        r@ == seq![digit_char(d as nat)],
{
    proof {
        reveal_strlit("0");
        reveal_strlit("1");
        reveal_strlit("2");
        reveal_strlit("3");
        reveal_strlit("4");
        reveal_strlit("5");
        reveal_strlit("6");
        reveal_strlit("7");
        reveal_strlit("8");
        reveal_strlit("9");
    }
    match d {
        0 => {
            assert("0"@ =~= seq![digit_char(0)]);
            "0"
        },
        1 => {
            assert("1"@ =~= seq![digit_char(1)]);
            "1"
        },
        2 => {
            assert("2"@ =~= seq![digit_char(2)]);
            "2"
        },
        3 => {
            assert("3"@ =~= seq![digit_char(3)]);
            "3"
        },
        4 => {
            assert("4"@ =~= seq![digit_char(4)]);
            "4"
        },
        5 => {
            assert("5"@ =~= seq![digit_char(5)]);
            "5"
        },
        6 => {
            assert("6"@ =~= seq![digit_char(6)]);
            "6"
        },
        7 => {
            assert("7"@ =~= seq![digit_char(7)]);
            "7"
        },
        8 => {
            assert("8"@ =~= seq![digit_char(8)]);
            "8"
        },
        _ => {
            assert("9"@ =~= seq![digit_char(9)]);
            "9"
        },
    }
}

/// Writes a number as its decimal text.
pub fn usize_to_string(n: usize) -> (r: String)
    ensures
        r@ == spec_nat_digits(n as nat),
    decreases n,
{
    if n < 10 {
        digit_to_str(n).to_owned()
    } else {
        let mut s = usize_to_string(n / 10);
        s.append(digit_to_str(n % 10));
        assert(s@ =~= spec_nat_digits((n / 10) as nat).push(digit_char((n % 10) as nat)));
        s
    }
}

/// The whitespace characters that may pad a document's front.
pub open spec fn is_space(c: char) -> bool {
    c == ' ' || c == '\t' || c == '\r' || c == '\n'
}

/// Where the leading whitespace of a text ends.
pub open spec fn spec_ws_end(s: Seq<char>, i: int) -> int
    decreases s.len() - i,
{
    if i < 0 || i >= s.len() {
        i
    } else if is_space(s[i]) {
        spec_ws_end(s, i + 1)
    } else {
        i
    }
}

/// Strips leading whitespace.  The tokenizer refuses a document whose
/// XML declaration is not at the very first byte, while response
/// texts commonly arrive padded with a newline and indentation, so
/// the decoders strip the padding before tokenizing.
#[verifier::loop_isolation(false)]
pub fn trim_leading(s: &str) -> (r: &str)
    ensures
        r@ == s@.skip(spec_ws_end(s@, 0)),
{
    let n: usize = s.unicode_len();
    let mut i: usize = 0;
    while i < n
        invariant
            0 <= i <= n,
            n == s@.len(),
            spec_ws_end(s@, 0) == spec_ws_end(s@, i as int),
        decreases n - i,
    {
        let c = s.get_char(i);
        if !(c == ' ' || c == '\t' || c == '\r' || c == '\n') {
            assert(spec_ws_end(s@, i as int) == i as int);
            return s.substring_char(i, n);
        }
        i = i + 1;
    }
    s.substring_char(n, n)
}

/// Relies on `String::push`: appends one character.
#[verifier::external_body]
fn push_char(s: &mut String, c: char)
    ensures
        final(s)@ == old(s)@.push(c),
{
    s.push(c);
}

/// The bytes a query serializer writes verbatim: ASCII letters and
/// digits, and `*`, `-`, `.`, `_`.
pub open spec fn form_safe_byte(b: u8) -> bool {
    (65 <= b <= 90) || (97 <= b <= 122) || (48 <= b <= 57) || b == 42 || b == 45 || b == 46 || b
        == 95
}

/// The hexadecimal digit of a value below sixteen, upper case.
pub open spec fn hex_digit_char(n: u8) -> char {
    if n < 10 {
        ((n + 48) as u8) as char
    } else {
        ((n + 55) as u8) as char
    }
}

/// How one byte is written in a query string: a space as `+`, a safe
/// byte as itself, anything else percent-encoded.
pub open spec fn form_encoded_byte(b: u8) -> Seq<char> {
    if b == 32 {
        seq!['+']
    } else if form_safe_byte(b) {
        seq![b as char]
    } else {
        seq!['%', hex_digit_char(b / 16), hex_digit_char(b % 16)]
    }
}

/// The query-string encoding of a byte sequence.
pub open spec fn form_encoded(bs: Seq<u8>) -> Seq<char>
    decreases bs.len(),
{
    if bs.len() == 0 {
        Seq::empty()
    } else {
        form_encoded(bs.drop_last()) + form_encoded_byte(bs.last())
    }
}

/// Encodes a text for a query string, byte by byte over its UTF-8
/// form: a space becomes `+`, letters, digits and `*-._` stay as
/// they are, every other byte becomes `%` and two upper-case hex
/// digits.
#[verifier::loop_isolation(false)]
pub fn form_encode(s: &str) -> (r: String)
    ensures
        r@ == form_encoded(encode_utf8(s@)),
{
    let bytes: &[u8] = s.as_bytes();
    let mut out: String = String::new();
    let mut i: usize = 0;
    while i < bytes.len()
        invariant
            i <= bytes.len(),
            bytes@ == encode_utf8(s@),
            out@ == form_encoded(bytes@.take(i as int)),
        decreases bytes.len() - i,
    {
        let b = bytes[i];
        proof {
            assert(bytes@.take(i + 1).drop_last() =~= bytes@.take(i as int));
            assert(bytes@.take(i + 1).last() == bytes@[i as int]);
        }
        let ghost pre = out@;
        if b == 32 {
            push_char(&mut out, '+');
            assert(out@ =~= pre + form_encoded_byte(b));
        } else if (65 <= b && b <= 90) || (97 <= b && b <= 122) || (48 <= b && b <= 57) || b == 42
            || b == 45 || b == 46 || b == 95 {
            push_char(&mut out, b as char);
            assert(out@ =~= pre + form_encoded_byte(b));
        } else {
            push_char(&mut out, '%');
            let hi = b / 16;
            let lo = b % 16;
            let hc: char = if hi < 10 {
                (hi + 48) as char
            } else {
                (hi + 55) as char
            };
            let lc: char = if lo < 10 {
                (lo + 48) as char
            } else {
                (lo + 55) as char
            };
            push_char(&mut out, hc);
            push_char(&mut out, lc);
            assert(out@ =~= pre + form_encoded_byte(b));
        }
        i = i + 1;
    }
    assert(bytes@.take(bytes@.len() as int) =~= bytes@);
    out
}

} // verus!
