//! Plain-text forms of the primitive values: decimal rendering and parsing
//! of integers, the textual forms of booleans and characters, and string
//! comparison, together with the round-trip laws that connect them.
//!
//! The parsing grammar is the standard one for decimal integers: an optional
//! sign (`+` for unsigned values, `+` or `-` for signed ones) followed by at
//! least one decimal digit, with no other characters, and the value must fit
//! the target width.

use vstd::prelude::*;

verus! {

/// Whether `c` is a decimal digit.
pub open spec fn is_dec_digit(c: char) -> bool {
    '0' as int <= c as int && c as int <= '9' as int
}

/// The numeric value of a digit character.
pub open spec fn digit_val(c: char) -> int {
    c as int - '0' as int
}

/// The digit character for a value below ten.
pub open spec fn digit_char(d: int) -> char {
    if d == 0 {
        '0'
    } else if d == 1 {
        '1'
    } else if d == 2 {
        '2'
    } else if d == 3 {
        '3'
    } else if d == 4 {
        '4'
    } else if d == 5 {
        '5'
    } else if d == 6 {
        '6'
    } else if d == 7 {
        '7'
    } else if d == 8 {
        '8'
    } else {
        '9'
    }
}

/// Whether every character of `s` is a decimal digit.
pub open spec fn all_digits(s: Seq<char>) -> bool {
    forall|i: int| 0 <= i < s.len() ==> is_dec_digit(#[trigger] s[i])
}

/// The numeric value of a digit sequence, most significant digit first.
pub open spec fn dec_val(s: Seq<char>) -> int
    decreases s.len(),
{
    if s.len() == 0 {
        0
    } else {
        dec_val(s.drop_last()) * 10 + digit_val(s.last())
    }
}

/// The canonical decimal rendering of a natural number: no sign, no leading
/// zeros (except for the single digit `0` itself).
pub open spec fn dec_digits_of(n: nat) -> Seq<char>
    decreases n,
{
    if n < 10 {
        seq![digit_char(n as int)]
    } else {
        dec_digits_of(n / 10).push(digit_char((n % 10) as int))
    }
}

/// The canonical decimal rendering of an integer: a leading `-` for negative
/// values, the digits of the magnitude otherwise.
pub open spec fn int_text(i: int) -> Seq<char> {
    if i < 0 {
        seq!['-'] + dec_digits_of((-i) as nat)
    } else {
        dec_digits_of(i as nat)
    }
}

/// The textual form of a boolean.
pub open spec fn bool_text(v: bool) -> Seq<char> {
    if v {
        "true"@
    } else {
        "false"@
    }
}

/// Parses a bare digit string: at least one digit, nothing else, and a value
/// that fits in 64 bits.
pub open spec fn spec_parse_digits(s: Seq<char>) -> Option<u64> {
    if s.len() > 0 && all_digits(s) && dec_val(s) <= u64::MAX {
        Some(dec_val(s) as u64)
    } else {
        None
    }
}

/// Parses an unsigned decimal number: an optional leading `+`, then digits.
pub open spec fn spec_parse_u64(s: Seq<char>) -> Option<u64> {
    if s.len() > 0 && s[0] == '+' {
        spec_parse_digits(s.drop_first())
    } else {
        spec_parse_digits(s)
    }
}

/// Parses a signed decimal number: an optional leading `+` or `-`, then
/// digits, with the value in the range of `i64`.
pub open spec fn spec_parse_i64(s: Seq<char>) -> Option<i64> {
    let negative = s.len() > 0 && s[0] == '-';
    let body = if s.len() > 0 && (s[0] == '-' || s[0] == '+') {
        s.drop_first()
    } else {
        s
    };
    match spec_parse_digits(body) {
        Some(v) => if negative {
            if v <= 0x8000_0000_0000_0000u64 {
                Some((0 - v as int) as i64)
            } else {
                None
            }
        } else {
            if v <= i64::MAX as u64 {
                Some(v as i64)
            } else {
                None
            }
        },
        None => None,
    }
}

/// Parses an unsigned decimal number that must fit in 8 bits.
pub open spec fn spec_parse_u8(s: Seq<char>) -> Option<u8> {
    match spec_parse_u64(s) {
        Some(v) => if v <= u8::MAX as u64 {
            Some(v as u8)
        } else {
            None
        },
        None => None,
    }
}

/// Parses an unsigned decimal number that must fit in 16 bits.
pub open spec fn spec_parse_u16(s: Seq<char>) -> Option<u16> {
    match spec_parse_u64(s) {
        Some(v) => if v <= u16::MAX as u64 {
            Some(v as u16)
        } else {
            None
        },
        None => None,
    }
}

/// Parses an unsigned decimal number that must fit in 32 bits.
pub open spec fn spec_parse_u32(s: Seq<char>) -> Option<u32> {
    match spec_parse_u64(s) {
        Some(v) => if v <= u32::MAX as u64 {
            Some(v as u32)
        } else {
            None
        },
        None => None,
    }
}

/// Parses a signed decimal number that must fit in 8 bits.
pub open spec fn spec_parse_i8(s: Seq<char>) -> Option<i8> {
    match spec_parse_i64(s) {
        Some(v) => if i8::MIN as i64 <= v && v <= i8::MAX as i64 {
            Some(v as i8)
        } else {
            None
        },
        None => None,
    }
}

/// Parses a signed decimal number that must fit in 16 bits.
pub open spec fn spec_parse_i16(s: Seq<char>) -> Option<i16> {
    match spec_parse_i64(s) {
        Some(v) => if i16::MIN as i64 <= v && v <= i16::MAX as i64 {
            Some(v as i16)
        } else {
            None
        },
        None => None,
    }
}

/// Parses a signed decimal number that must fit in 32 bits.
pub open spec fn spec_parse_i32(s: Seq<char>) -> Option<i32> {
    match spec_parse_i64(s) {
        Some(v) => if i32::MIN as i64 <= v && v <= i32::MAX as i64 {
            Some(v as i32)
        } else {
            None
        },
        None => None,
    }
}

/// Parses a boolean: exactly `true` or `false`.
pub open spec fn spec_parse_bool(s: Seq<char>) -> Option<bool> {
    if s == "true"@ {
        Some(true)
    } else if s == "false"@ {
        Some(false)
    } else {
        None
    }
}

/// Parses a character: the input must be exactly one character long.
pub open spec fn spec_parse_char(s: Seq<char>) -> Option<char> {
    if s.len() == 1 {
        Some(s[0])
    } else {
        None
    }
}

/// Digit characters have the digit values they stand for.
pub proof fn lemma_digit_char_val(d: int)
    requires
        0 <= d < 10,
    ensures
        is_dec_digit(digit_char(d)),
        digit_val(digit_char(d)) == d,
{
}

/// A canonical rendering is never empty and consists of digits alone.
pub proof fn lemma_dec_digits_wf(n: nat)
    ensures
        dec_digits_of(n).len() >= 1,
        all_digits(dec_digits_of(n)),
    decreases n,
{
    if n < 10 {
        lemma_digit_char_val(n as int);
    } else {
        lemma_dec_digits_wf(n / 10);
        lemma_digit_char_val((n % 10) as int);
        let prefix = dec_digits_of(n / 10);
        let whole = dec_digits_of(n);
        assert forall|i: int| 0 <= i < whole.len() implies is_dec_digit(#[trigger] whole[i]) by {
            if i < prefix.len() {
                assert(whole[i] == prefix[i]);
            }
        }
    }
}

/// Reading the canonical rendering back gives the number it was made from.
pub proof fn lemma_dec_val_digits(n: nat)
    ensures
        dec_val(dec_digits_of(n)) == n,
    decreases n,
{
    if n < 10 {
        lemma_digit_char_val(n as int);
        let s = dec_digits_of(n);
        assert(s.drop_last() =~= Seq::<char>::empty());
        assert(dec_val(Seq::<char>::empty()) == 0);
        assert(s.last() == digit_char(n as int));
        assert(dec_val(s) == 0 * 10 + digit_val(digit_char(n as int)));
    } else {
        lemma_dec_val_digits(n / 10);
        lemma_digit_char_val((n % 10) as int);
        let s = dec_digits_of(n);
        assert(s == dec_digits_of(n / 10).push(digit_char((n % 10) as int)));
        assert(s.drop_last() =~= dec_digits_of(n / 10));
        assert(s.last() == digit_char((n % 10) as int));
        assert(dec_val(s) == dec_val(dec_digits_of(n / 10)) * 10 + (n % 10));
        assert(n == (n / 10) * 10 + n % 10);
    }
}

/// The value of a digit string is never negative.
pub proof fn lemma_dec_val_nonneg(s: Seq<char>)
    requires
        all_digits(s),
    ensures
        dec_val(s) >= 0,
    decreases s.len(),
{
    if s.len() > 0 {
        assert(all_digits(s.drop_last()));
        lemma_dec_val_nonneg(s.drop_last());
    }
}

/// Appending a digit multiplies the value by ten and adds the digit.
pub proof fn lemma_dec_val_push(s: Seq<char>, c: char)
    ensures
        dec_val(s.push(c)) == dec_val(s) * 10 + digit_val(c),
{
    assert(s.push(c).drop_last() =~= s);
}

/// A prefix of a digit string is worth no more than the whole string.
pub proof fn lemma_dec_val_take_le(s: Seq<char>, k: int)
    requires
        all_digits(s),
        0 <= k <= s.len(),
    ensures
        dec_val(s.take(k)) <= dec_val(s),
    decreases s.len() - k,
{
    if k < s.len() {
        lemma_dec_val_take_le(s, k + 1);
        assert(s.take(k + 1) =~= s.take(k).push(s[k]));
        lemma_dec_val_push(s.take(k), s[k]);
        assert(all_digits(s.take(k)));
        lemma_dec_val_nonneg(s.take(k));
    } else {
        assert(s.take(k) =~= s);
    }
}

/// Parsing the canonical rendering of an unsigned value gives it back.
pub proof fn lemma_u64_round_trip(v: u64)
    ensures
        spec_parse_u64(dec_digits_of(v as nat)) == Some(v),
{
    lemma_dec_digits_wf(v as nat);
    lemma_dec_val_digits(v as nat);
    let s = dec_digits_of(v as nat);
    assert(is_dec_digit(s[0]));
    assert(s[0] as int != '+' as int);
    assert(s[0] != '+');
}

/// Parsing the canonical rendering of a signed value gives it back.
pub proof fn lemma_i64_round_trip(v: i64)
    ensures
        spec_parse_i64(int_text(v as int)) == Some(v),
{
    if v >= 0 {
        lemma_dec_digits_wf(v as nat);
        lemma_dec_val_digits(v as nat);
        let s = int_text(v as int);
        assert(is_dec_digit(s[0]));
        assert(s[0] as int != '+' as int && s[0] as int != '-' as int);
        assert(s[0] != '+' && s[0] != '-');
    } else {
        let mag = (-(v as int)) as nat;
        lemma_dec_digits_wf(mag);
        lemma_dec_val_digits(mag);
        let s = int_text(v as int);
        assert(s[0] == '-');
        assert(s.drop_first() =~= dec_digits_of(mag));
        assert(mag <= 0x8000_0000_0000_0000u64);
    }
}

/// Parsing the canonical rendering of an 8-bit unsigned value gives it back.
pub proof fn lemma_u8_round_trip(v: u8)
    ensures
        spec_parse_u8(dec_digits_of(v as nat)) == Some(v),
{
    lemma_u64_round_trip(v as u64);
}

/// Parsing the canonical rendering of a 16-bit unsigned value gives it back.
pub proof fn lemma_u16_round_trip(v: u16)
    ensures
        spec_parse_u16(dec_digits_of(v as nat)) == Some(v),
{
    lemma_u64_round_trip(v as u64);
}

/// Parsing the canonical rendering of a 32-bit unsigned value gives it back.
pub proof fn lemma_u32_round_trip(v: u32)
    ensures
        spec_parse_u32(dec_digits_of(v as nat)) == Some(v),
{
    lemma_u64_round_trip(v as u64);
}

/// Parsing the canonical rendering of an 8-bit signed value gives it back.
pub proof fn lemma_i8_round_trip(v: i8)
    ensures
        spec_parse_i8(int_text(v as int)) == Some(v),
{
    lemma_i64_round_trip(v as i64);
}

/// Parsing the canonical rendering of a 16-bit signed value gives it back.
pub proof fn lemma_i16_round_trip(v: i16)
    ensures
        spec_parse_i16(int_text(v as int)) == Some(v),
{
    lemma_i64_round_trip(v as i64);
}

/// Parsing the canonical rendering of a 32-bit signed value gives it back.
pub proof fn lemma_i32_round_trip(v: i32)
    ensures
        spec_parse_i32(int_text(v as int)) == Some(v),
{
    lemma_i64_round_trip(v as i64);
}

/// Parsing the textual form of a boolean gives it back.
pub proof fn lemma_bool_round_trip(v: bool)
    ensures
        spec_parse_bool(bool_text(v)) == Some(v),
{
    reveal_strlit("true");
    reveal_strlit("false");
    assert("true"@.len() == 4);
    assert("false"@.len() == 5);
}

/// Parsing the one-character rendering of a character gives it back.
pub proof fn lemma_char_round_trip(c: char)
    ensures
        spec_parse_char(seq![c]) == Some(c),
{
}

/// Whether `c` is a decimal digit.
fn exec_is_dec_digit(c: char) -> (r: bool)
    ensures
        r == is_dec_digit(c),
{
    let u = c as u32;
    48 <= u && u <= 57
}

/// The numeric value of a digit character.
fn digit_of_char(c: char) -> (d: u64)
    requires
        is_dec_digit(c),
    ensures
        d as int == digit_val(c),
        d < 10,
{
    (c as u32 - 48) as u64
}

/// The digit character for a value below ten.
fn digit_to_char(d: u64) -> (c: char)
    requires
        d < 10,
    ensures
        c == digit_char(d as int),
{
    if d == 0 {
        '0'
    } else if d == 1 {
        '1'
    } else if d == 2 {
        '2'
    } else if d == 3 {
        '3'
    } else if d == 4 {
        '4'
    } else if d == 5 {
        '5'
    } else if d == 6 {
        '6'
    } else if d == 7 {
        '7'
    } else if d == 8 {
        '8'
    } else {
        '9'
    }
}

/// Relies on `String::push`: appends exactly the given character.
#[verifier::external_body]
fn push_char(s: &mut String, c: char)
    ensures
        final(s)@ == old(s)@.push(c),
{
    s.push(c);
}

/// Renders an unsigned value in canonical decimal form.
pub fn u64_to_dec(n: u64) -> (r: String)
    ensures
        r@ == dec_digits_of(n as nat),
    decreases n,
{
    if n < 10 {
        let mut s = String::new();
        push_char(&mut s, digit_to_char(n));
        proof {
            assert(Seq::<char>::empty().push(digit_char(n as int)) =~= seq![
                digit_char(n as int),
            ]);
        }
        s
    } else {
        let mut s = u64_to_dec(n / 10);
        push_char(&mut s, digit_to_char(n % 10));
        s
    }
}

/// Renders a signed value in canonical decimal form.
pub fn i64_to_dec(n: i64) -> (r: String)
    ensures
        r@ == int_text(n as int),
{
    if n >= 0 {
        u64_to_dec(n as u64)
    } else {
        let mag: u64 = if n == i64::MIN {
            0x8000_0000_0000_0000u64
        } else {
            (-n) as u64
        };
        assert(mag as int == -(n as int));
        let digits = u64_to_dec(mag);
        let mut s = String::from_str("-");
        s.append(digits.as_str());
        proof {
            reveal_strlit("-");
            assert("-"@ =~= seq!['-']);
            assert(s@ =~= seq!['-'] + dec_digits_of((-(n as int)) as nat));
        }
        s
    }
}

/// Renders a boolean as `true` or `false`.
pub fn bool_to_text(v: bool) -> (r: String)
    ensures
        r@ == bool_text(v),
{
    if v {
        String::from_str("true")
    } else {
        String::from_str("false")
    }
}

/// Relies on `char::to_string`: a one-character string of exactly this
/// character.
#[verifier::external_body]
pub fn char_to_text(c: char) -> (r: String)
    ensures
        r@ == seq![c],
{
    c.to_string()
}

/// Compares two strings character by character.
pub fn str_eq(a: &str, b: &str) -> (r: bool)
    ensures
        r == (a@ == b@),
{
    let n = a.unicode_len();
    let m = b.unicode_len();
    if n != m {
        return false;
    }
    let mut i: usize = 0;
    while i < n
        invariant
            n == a@.len(),
            n == b@.len(),
            0 <= i <= n,
            forall|j: int| 0 <= j < i ==> a@[j] == b@[j],
        decreases n - i,
    {
        if a.get_char(i) != b.get_char(i) {
            return false;
        }
        i += 1;
    }
    proof {
        assert(a@ =~= b@);
    }
    true
}

/// Parses a bare digit string.
pub fn parse_dec_digits(s: &str) -> (r: Option<u64>)
    ensures
        r == spec_parse_digits(s@),
{
    let n = s.unicode_len();
    if n == 0 {
        return None;
    }
    let mut acc: u64 = 0;
    let mut i: usize = 0;
    while i < n
        invariant
            n == s@.len(),
            0 <= i <= n,
            all_digits(s@.take(i as int)),
            acc as int == dec_val(s@.take(i as int)),
        decreases n - i,
    {
        let c = s.get_char(i);
        if !exec_is_dec_digit(c) {
            proof {
                assert(!all_digits(s@));
            }
            return None;
        }
        let d = digit_of_char(c);
        proof {
            lemma_dec_val_push(s@.take(i as int), s@[i as int]);
            assert(s@.take(i as int + 1) =~= s@.take(i as int).push(s@[i as int]));
        }
        let shifted = match acc.checked_mul(10) {
            Some(m) => m.checked_add(d),
            None => None,
        };
        match shifted {
            Some(next) => {
                acc = next;
            },
            None => {
                proof {
                    assert(dec_val(s@.take(i as int + 1)) > u64::MAX);
                    if all_digits(s@) {
                        lemma_dec_val_take_le(s@, i as int + 1);
                    }
                }
                return None;
            },
        }
        i += 1;
    }
    proof {
        assert(s@.take(n as int) =~= s@);
    }
    Some(acc)
}

/// Parses an unsigned decimal number with an optional leading `+`.
pub fn parse_u64(s: &str) -> (r: Option<u64>)
    ensures
        r == spec_parse_u64(s@),
{
    let n = s.unicode_len();
    if n > 0 && s.get_char(0) == '+' {
        let body = s.substring_char(1, n);
        proof {
            assert(body@ =~= s@.drop_first());
        }
        parse_dec_digits(body)
    } else {
        parse_dec_digits(s)
    }
}

/// Parses a signed decimal number with an optional leading sign.
pub fn parse_i64(s: &str) -> (r: Option<i64>)
    ensures
        r == spec_parse_i64(s@),
{
    let n = s.unicode_len();
    if n == 0 {
        return None;
    }
    let c0 = s.get_char(0);
    let negative = c0 == '-';
    let start: usize = if c0 == '-' || c0 == '+' {
        1
    } else {
        0
    };
    let body = s.substring_char(start, n);
    proof {
        if start == 1 {
            assert(body@ =~= s@.drop_first());
        } else {
            assert(body@ =~= s@);
        }
    }
    match parse_dec_digits(body) {
        None => None,
        Some(v) => {
            if negative {
                if v == 0x8000_0000_0000_0000u64 {
                    Some(i64::MIN)
                } else if v < 0x8000_0000_0000_0000u64 {
                    Some(-(v as i64))
                } else {
                    None
                }
            } else {
                if v <= i64::MAX as u64 {
                    Some(v as i64)
                } else {
                    None
                }
            }
        },
    }
}

/// Parses a boolean: exactly `true` or `false`.
pub fn parse_bool(s: &str) -> (r: Option<bool>)
    ensures
        r == spec_parse_bool(s@),
{
    if str_eq(s, "true") {
        Some(true)
    } else if str_eq(s, "false") {
        Some(false)
    } else {
        None
    }
}

/// Parses a character: the input must be exactly one character long.
pub fn parse_char(s: &str) -> (r: Option<char>)
    ensures
        r == spec_parse_char(s@),
{
    if s.unicode_len() == 1 {
        let c = s.get_char(0);
        proof {
            assert(s@ =~= seq![c]);
        }
        Some(c)
    } else {
        None
    }
}

} // verus!
