//! Small text operations of the standard library, with their contracts.

use vstd::prelude::*;

verus! {

/// The decimal digit `d` (`0 <= d < 10`) as a character.
pub open spec fn digit_char(d: nat) -> char {
    ((d + 48) as u32) as char
}

/// The decimal representation of `n`, without sign or leading zeros.
pub open spec fn decimal_text(n: nat) -> Seq<char>
    decreases n,
{
    if n < 10 {
        seq![digit_char(n)]
    } else {
        decimal_text(n / 10).push(digit_char(n % 10))
    }
}

/// Whether every character of `s` is an ASCII decimal digit.
pub open spec fn all_digits(s: Seq<char>) -> bool {
    forall|i: int| 0 <= i < s.len() ==> '0' <= #[trigger] s[i] <= '9'
}

/// The value of a string of decimal digits.
pub open spec fn digits_value(s: Seq<char>) -> nat
    decreases s.len(),
{
    if s.len() == 0 {
        0
    } else {
        digits_value(s.drop_last()) * 10 + ((s.last() as u32) - 48) as nat
    }
}

/// What `str::parse::<u32>` gives: an optional `'+'`, then one or more
/// decimal digits whose value fits in a `u32`.
pub open spec fn parse_u32_text(s: Seq<char>) -> Option<u32> {
    let digits = if s.len() > 0 && s[0] == '+' {
        s.drop_first()
    } else {
        s
    };
    if digits.len() > 0 && all_digits(digits) && digits_value(digits) <= u32::MAX {
        Some(digits_value(digits) as u32)
    } else {
        None
    }
}

/// The first character of the Unicode lowercase mapping of a non-ASCII
/// character.
pub uninterp spec fn lowercase_non_ascii(c: char) -> char;

/// The first character of the Unicode uppercase mapping of a non-ASCII
/// character.
pub uninterp spec fn uppercase_non_ascii(c: char) -> char;

/// The Unicode lowercase mapping of a whole string that holds a non-ASCII
/// character.
pub uninterp spec fn lowercase_non_ascii_str(s: Seq<char>) -> Seq<char>;

/// How `char::fmt` for `Debug` writes a character (quoted and escaped).
pub uninterp spec fn char_debug_text(c: char) -> Seq<char>;

/// How `str::fmt` for `Debug` writes a string (quoted and escaped).
pub uninterp spec fn str_debug_text(s: Seq<char>) -> Seq<char>;

/// Whether `c` is an ASCII uppercase letter.
pub open spec fn is_ascii_upper(c: char) -> bool {
    'A' <= c <= 'Z'
}

/// Whether `c` is an ASCII lowercase letter.
pub open spec fn is_ascii_lower(c: char) -> bool {
    'a' <= c <= 'z'
}

/// The ASCII lowercase form of an ASCII character.
pub open spec fn ascii_lower(c: char) -> char {
    if is_ascii_upper(c) {
        ((c as u32) + 32) as char
    } else {
        c
    }
}

/// The ASCII uppercase form of an ASCII character.
pub open spec fn ascii_upper(c: char) -> char {
    if is_ascii_lower(c) {
        ((c as u32) - 32) as char
    } else {
        c
    }
}

/// The first character of the lowercase mapping of `c`
/// (`c.to_lowercase().next()`); ASCII characters map to their ASCII lowercase
/// form.
pub open spec fn lowercase_first(c: char) -> char {
    if (c as u32) < 128 {
        ascii_lower(c)
    } else {
        lowercase_non_ascii(c)
    }
}

/// The first character of the uppercase mapping of `c`
/// (`c.to_uppercase().next()`); ASCII characters map to their ASCII uppercase
/// form.
pub open spec fn uppercase_first(c: char) -> char {
    if (c as u32) < 128 {
        ascii_upper(c)
    } else {
        uppercase_non_ascii(c)
    }
}

/// Whether every character of `s` is ASCII.
pub open spec fn all_ascii(s: Seq<char>) -> bool {
    forall|i: int| 0 <= i < s.len() ==> (#[trigger] s[i] as u32) < 128
}

/// The lowercase form of a string (`str::to_lowercase`).
pub open spec fn lowercase_text(s: Seq<char>) -> Seq<char> {
    if all_ascii(s) {
        s.map_values(|c: char| ascii_lower(c))
    } else {
        lowercase_non_ascii_str(s)
    }
}

/// `str` equality (`PartialEq for str`): the two strings hold the same
/// characters.
#[verifier::external_body]
pub fn str_eq(a: &str, b: &str) -> (equal: bool)
    ensures
        equal == (a@ == b@),
{
    a == b
}

/// `char::to_lowercase`, first character of the mapping (the character
/// itself when the mapping is empty). Claimed: ASCII characters map to their
/// ASCII lowercase form; others to a fixed function of the character.
#[verifier::external_body]
pub fn char_lowercase(c: char) -> (lower: char)
    ensures
        (c as u32) < 128 ==> lower == ascii_lower(c),
        (c as u32) >= 128 ==> lower == lowercase_non_ascii(c),
{
    c.to_lowercase().next().unwrap_or(c)
}

/// `char::to_uppercase`, first character of the mapping (the character
/// itself when the mapping is empty). Claimed: ASCII characters map to their
/// ASCII uppercase form; others to a fixed function of the character.
#[verifier::external_body]
pub fn char_uppercase(c: char) -> (upper: char)
    ensures
        (c as u32) < 128 ==> upper == ascii_upper(c),
        (c as u32) >= 128 ==> upper == uppercase_non_ascii(c),
{
    c.to_uppercase().next().unwrap_or(c)
}

/// `str::to_lowercase`. Claimed: an all-ASCII string maps character by
/// character to ASCII lowercase; other strings to a fixed function of the
/// string.
#[verifier::external_body]
pub fn str_lowercase(s: &str) -> (lower: String)
    ensures
        all_ascii(s@) ==> lower@ == s@.map_values(|c: char| ascii_lower(c)),
        !all_ascii(s@) ==> lower@ == lowercase_non_ascii_str(s@),
{
    s.to_lowercase()
}

/// The value of digits grows with each digit added.
proof fn lemma_digits_value_grows(s: Seq<char>, k: int)
    requires
        0 <= k <= s.len(),
        all_digits(s),
    ensures
        digits_value(s.take(k)) <= digits_value(s),
    decreases s.len() - k,
{
    if k < s.len() {
        lemma_digits_value_grows(s, k + 1);
        assert(s.take(k + 1).drop_last() =~= s.take(k));
        assert(s.take(k + 1).last() == s[k]);
    } else {
        assert(s.take(k) =~= s);
    }
}

/// Parses a decimal `u32` as `str::parse::<u32>` does, with the error
/// dropped: an optional `'+'`, then one or more decimal digits whose value
/// fits.
pub fn parse_u32(s: &str) -> (value: Option<u32>)
    ensures
        value == parse_u32_text(s@),
{
    let chars = chars_of(s);
    let start: usize = if chars.len() > 0 && chars[0] == '+' {
        1
    } else {
        0
    };
    let ghost digits = chars@.subrange(start as int, chars@.len() as int);
    assert(digits =~= (if s@.len() > 0 && s@[0] == '+' {
        s@.drop_first()
    } else {
        s@
    }));
    if start == chars.len() {
        return None;
    }
    let mut value: u32 = 0;
    let mut i: usize = start;
    assert(digits.take(0) =~= Seq::<char>::empty());
    while i < chars.len()
        invariant
            chars@ == s@,
            start <= i <= chars@.len(),
            digits == chars@.subrange(start as int, chars@.len() as int),
            digits == (if s@.len() > 0 && s@[0] == '+' {
                s@.drop_first()
            } else {
                s@
            }),
            digits.len() > 0,
            all_digits(digits.take(i - start)),
            value == digits_value(digits.take(i - start)),
        decreases chars@.len() - i,
    {
        let c = chars[i];
        let ghost k: int = i - start;
        assert(digits[k] == c);
        if c < '0' || c > '9' {
            assert(!all_digits(digits));
            return None;
        }
        let d: u32 = (c as u32) - 48;
        assert(digits.take(k + 1).drop_last() =~= digits.take(k));
        assert(digits.take(k + 1).last() == c);
        assert(all_digits(digits.take(k + 1)));
        let next = match value.checked_mul(10) {
            Some(t) => t.checked_add(d),
            None => None,
        };
        match next {
            Some(n) => {
                value = n;
            },
            None => {
                proof {
                    if all_digits(digits) {
                        lemma_digits_value_grows(digits, k + 1);
                    }
                }
                return None;
            },
        }
        i = i + 1;
    }
    assert(digits.take(digits.len() as int) =~= digits);
    Some(value)
}

/// The decimal digit `d` (`d < 10`) as a character.
fn digit(d: u64) -> (c: char)
    requires
        d < 10,
    ensures
        c == digit_char(d as nat),
{
    let b: u8 = (d as u8) + 48;
    b as char
}

/// The decimal digits of `n`, as `u64` formatted with `Display` writes them.
pub fn decimal(n: u64) -> (text: String)
    ensures
        text@ == decimal_text(n as nat),
    decreases n,
{
    if n < 10 {
        let mut text = String::new();
        push_char(&mut text, digit(n));
        assert(text@ =~= seq![digit_char(n as nat)]);
        text
    } else {
        let mut text = decimal(n / 10);
        push_char(&mut text, digit(n % 10));
        text
    }
}

/// `char` formatted with `Debug`. Claimed: a fixed function of the character.
#[verifier::external_body]
pub fn char_debug(c: char) -> (text: String)
    ensures
        text@ == char_debug_text(c),
{
    format!("{:?}", c)
}

/// `str` formatted with `Debug`. Claimed: a fixed function of the string.
#[verifier::external_body]
pub fn str_debug(s: &str) -> (text: String)
    ensures
        text@ == str_debug_text(s@),
{
    format!("{:?}", s)
}

/// `String::push`: appends one character.
#[verifier::external_body]
pub fn push_char(s: &mut String, c: char)
    ensures
        final(s)@ == old(s)@.push(c),
{
    s.push(c)
}

/// `str::chars`, collected: the characters of the string in order.
#[verifier::external_body]
pub fn chars_of(s: &str) -> (chars: Vec<char>)
    ensures
        chars@ == s@,
{
    s.chars().collect()
}

/// `char::from_u32`: the character with the given scalar value, if it is one.
#[verifier::external_body]
pub fn char_from_u32(n: u32) -> (c: Option<char>)
    ensures
        c == (if n <= 0xD7FF || (0xE000 <= n && n <= 0x10FFFF) {
            Some(n as char)
        } else {
            None
        }),
{
    char::from_u32(n)
}

/// A string made of the given characters.
pub fn string_of(chars: &Vec<char>) -> (s: String)
    ensures
        s@ == chars@,
{
    let mut s = String::new();
    let mut i: usize = 0;
    while i < chars.len()
        invariant
            i <= chars.len(),
            s@ == chars@.take(i as int),
        decreases chars.len() - i,
    {
        push_char(&mut s, chars[i]);
        i = i + 1;
        assert(s@ =~= chars@.take(i as int));
    }
    assert(chars@.take(chars.len() as int) =~= chars@);
    s
}

/// Concatenates two strings.
pub fn concat(a: String, b: &str) -> (s: String)
    ensures
        s@ == a@ + b@,
{
    let mut s = a;
    s.append(b);
    s
}

/// A string from a string slice.
pub fn owned(s: &str) -> (o: String)
    ensures
        o@ == s@,
{
    String::from_str(s)
}

/// The decimal text of an integer, with a minus sign when it is negative.
pub open spec fn signed_decimal_text(v: int) -> Seq<char> {
    if v < 0 {
        "-"@ + decimal_text((-v) as nat)
    } else {
        decimal_text(v as nat)
    }
}

/// The decimal text of an `i32`, as `Display` writes it.
pub fn signed_decimal(v: i32) -> (text: String)
    ensures
        text@ == signed_decimal_text(v as int),
{
    if v < 0 {
        let magnitude: i64 = -(v as i64);
        concat(owned("-"), decimal(magnitude as u64).as_str())
    } else {
        decimal(v as u64)
    }
}

} // verus!
