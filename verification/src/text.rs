//! Text encodings shared by the adapters: decimal integers as they are stored
//! in string-typed attributes, and fixed-width hexadecimal as it appears in
//! tokens.

use vstd::prelude::*;

verus! {

pub open spec fn is_digit(c: char) -> bool {
    '0' <= c <= '9'
}

pub open spec fn digit_value(c: char) -> int {
    c as int - '0' as int
}

pub open spec fn digit_char(d: int) -> char {
    (d + '0' as int) as char
}

/// The number that a run of decimal digits denotes, most significant first.
pub open spec fn digits_value(s: Seq<char>) -> int
    decreases s.len(),
{
    if s.len() == 0 {
        0
    } else {
        digits_value(s.drop_last()) * 10 + digit_value(s.last())
    }
}

pub open spec fn all_digits(s: Seq<char>) -> bool {
    forall|i: int| 0 <= i < s.len() ==> is_digit(#[trigger] s[i])
}

/// The shortest run of decimal digits that denotes `n`.
pub open spec fn decimal_digits(n: nat) -> Seq<char>
    decreases n,
{
    if n < 10 {
        seq![digit_char(n as int)]
    } else {
        decimal_digits(n / 10).push(digit_char((n % 10) as int))
    }
}

/// The decimal text of an integer: a minus sign for negative numbers, no
/// plus sign, no leading zeros.
pub open spec fn decimal(n: int) -> Seq<char> {
    if n < 0 {
        seq!['-'] + decimal_digits((-n) as nat)
    } else {
        decimal_digits(n as nat)
    }
}

/// The integer that a text denotes: an optional sign followed by one or more
/// decimal digits. Anything else denotes nothing.
pub open spec fn parse_decimal(s: Seq<char>) -> Option<int> {
    if s.len() == 0 {
        None
    } else if s[0] == '-' || s[0] == '+' {
        let body = s.skip(1);
        if body.len() > 0 && all_digits(body) {
            Some(
                if s[0] == '-' {
                    -digits_value(body)
                } else {
                    digits_value(body)
                },
            )
        } else {
            None
        }
    } else if all_digits(s) {
        Some(digits_value(s))
    } else {
        None
    }
}

/// What a text denotes as a signed 64-bit number, if it denotes one.
pub open spec fn parse_i64_spec(s: Seq<char>) -> Option<i64> {
    match parse_decimal(s) {
        Some(v) => if i64::MIN <= v <= i64::MAX {
            Some(v as i64)
        } else {
            None
        },
        None => None,
    }
}

/// What a text denotes as an unsigned number no larger than `max`. A minus
/// sign is never accepted, not even before zero.
pub open spec fn parse_unsigned_spec(s: Seq<char>, max: int) -> Option<int> {
    if s.len() > 0 && s[0] == '-' {
        None
    } else {
        match parse_decimal(s) {
            Some(v) => if v <= max {
                Some(v)
            } else {
                None
            },
            None => None,
        }
    }
}

pub open spec fn hex_char(d: int) -> char {
    if d < 10 {
        (d + '0' as int) as char
    } else {
        (d - 10 + 'a' as int) as char
    }
}

/// The last `width` lower-case hexadecimal digits of `v`, padded with zeros.
pub open spec fn hex_fixed(v: nat, width: nat) -> Seq<char>
    decreases width,
{
    if width == 0 {
        Seq::empty()
    } else {
        hex_fixed(v / 16, (width - 1) as nat).push(hex_char((v % 16) as int))
    }
}

/// The 64-bit pattern of a signed number, read as an unsigned one.
pub open spec fn twos_complement(n: i64) -> nat {
    if n >= 0 {
        n as nat
    } else {
        (n + 0x1_0000_0000_0000_0000) as nat
    }
}

pub proof fn lemma_digits_value_nonnegative(s: Seq<char>)
    requires
        all_digits(s),
    ensures
        digits_value(s) >= 0,
    decreases s.len(),
{
    if s.len() > 0 {
        lemma_digits_value_nonnegative(s.drop_last());
    }
}

/// Reading more digits never gives a smaller number.
pub proof fn lemma_digits_value_monotonic(s: Seq<char>, k: int)
    requires
        all_digits(s),
        0 <= k <= s.len(),
    ensures
        digits_value(s.take(k)) <= digits_value(s),
    decreases s.len() - k,
{
    if k == s.len() {
        assert(s.take(k) =~= s);
    } else {
        lemma_digits_value_monotonic(s.drop_last(), k);
        assert(s.drop_last().take(k) =~= s.take(k));
        lemma_digits_value_nonnegative(s.drop_last());
    }
}

pub proof fn lemma_decimal_digits_shape(n: nat)
    ensures
        decimal_digits(n).len() > 0,
        all_digits(decimal_digits(n)),
        digits_value(decimal_digits(n)) == n,
    decreases n,
{
    if n < 10 {
        let s = decimal_digits(n);
        assert(s.drop_last() =~= Seq::<char>::empty());
        assert(digits_value(s.drop_last()) == 0);
    } else {
        lemma_decimal_digits_shape(n / 10);
        let s = decimal_digits(n);
        assert(s.drop_last() =~= decimal_digits(n / 10));
    }
}

/// Writing a number out and reading it back gives the number.
pub proof fn lemma_parse_decimal_of_decimal(n: int)
    ensures
        parse_decimal(decimal(n)) == Some(n),
{
    if n < 0 {
        let body = decimal_digits((-n) as nat);
        lemma_decimal_digits_shape((-n) as nat);
        assert(decimal(n).skip(1) =~= body);
    } else {
        lemma_decimal_digits_shape(n as nat);
    }
}

/// A stored signed 64-bit number reads back as itself.
pub proof fn lemma_parse_i64_of_decimal(n: i64)
    ensures
        parse_i64_spec(decimal(n as int)) == Some(n),
{
    lemma_parse_decimal_of_decimal(n as int);
}

pub proof fn lemma_hex_fixed_len(v: nat, width: nat)
    ensures
        hex_fixed(v, width).len() == width,
    decreases width,
{
    if width > 0 {
        lemma_hex_fixed_len(v / 16, (width - 1) as nat);
    }
}

/// `String::push`: the character is appended, nothing else changes.
#[verifier::external_body]
pub(crate) fn push_char(text: &mut String, c: char)
    ensures
        final(text)@ == old(text)@.push(c),
{
    text.push(c)
}

/// `str == str`: two texts are equal when they hold the same characters.
#[verifier::external_body]
pub(crate) fn same_text(a: &str, b: &str) -> (same: bool)
    ensures
        same == (a@ == b@),
{
    a == b
}

fn exec_digit_char(d: u8) -> (c: char)
    requires
        d < 10,
    ensures
        c == digit_char(d as int),
{
    (d + 48u8) as char
}

fn exec_hex_char(d: u8) -> (c: char)
    requires
        d < 16,
    ensures
        c == hex_char(d as int),
{
    if d < 10 {
        (d + 48u8) as char
    } else {
        (d - 10u8 + 97u8) as char
    }
}

fn exec_digit_value(c: char) -> (r: Option<u8>)
    ensures
        r is Some <==> is_digit(c),
        r is Some ==> r->0 as int == digit_value(c),
{
    if c >= '0' && c <= '9' {
        Some((c as u32 - 48u32) as u8)
    } else {
        None
    }
}

/// The characters of a text, in order.
pub fn chars_of(s: &str) -> (v: Vec<char>)
    ensures
        v@ == s@,
{
    let mut v: Vec<char> = Vec::new();
    let chars = s.chars();
    for c in it: chars
        invariant
            it.seq() == s@,
            v@ == s@.take(it.index() as int),
    {
        v.push(c);
    }
    v
}

/// Appends the decimal digits of `n` to `text`.
pub fn push_decimal(text: &mut String, n: u128)
    ensures
        final(text)@ == old(text)@ + decimal_digits(n as nat),
    decreases n,
{
    if n >= 10 {
        push_decimal(text, n / 10);
    }
    push_char(text, exec_digit_char((n % 10) as u8));
}

/// The decimal text of an unsigned number.
pub fn format_u64(n: u64) -> (r: String)
    ensures
        r@ == decimal(n as int),
{
    let mut text = String::new();
    push_decimal(&mut text, n as u128);
    text
}

/// The decimal text of the sum of two sizes, which may be larger than any
/// size.
pub fn format_sum(a: usize, b: usize) -> (r: String)
    ensures
        r@ == decimal(a + b),
{
    let mut text = String::new();
    push_decimal(&mut text, a as u128 + b as u128);
    text
}

/// The decimal text of a signed number, as it is stored in a numeric
/// attribute.
pub fn format_i64(n: i64) -> (r: String)
    ensures
        r@ == decimal(n as int),
{
    let mut text = String::new();
    if n < 0 {
        push_char(&mut text, '-');
        let magnitude: u128 = if n == i64::MIN {
            0x8000_0000_0000_0000u128
        } else {
            (-n) as u128
        };
        push_decimal(&mut text, magnitude);
    } else {
        push_decimal(&mut text, n as u128);
    }
    text
}

/// Reads the digits of `chars` from position `from` to the end as a number
/// no larger than `limit`.
fn parse_digits(chars: &Vec<char>, from: usize, limit: u64) -> (r: Option<u64>)
    requires
        from <= chars.len(),
    ensures
        r == ({
            let body = chars@.skip(from as int);
            if body.len() > 0 && all_digits(body) && digits_value(body) <= limit {
                Some(digits_value(body) as u64)
            } else {
                None
            }
        }),
        r matches Some(m) ==> m <= limit && m as int == digits_value(chars@.skip(from as int)),
{
    let ghost body = chars@.skip(from as int);
    if from >= chars.len() {
        return None;
    }
    let mut acc: u64 = 0;
    let mut i: usize = from;
    while i < chars.len()
        invariant
            from <= i <= chars.len(),
            body == chars@.skip(from as int),
            all_digits(body.take(i - from)),
            acc == digits_value(body.take(i - from)),
            acc <= limit,
        decreases chars.len() - i,
    {
        let ghost before = body.take(i - from);
        let ghost after = body.take(i + 1 - from);
        proof {
            assert(after.drop_last() =~= before);
            assert(after.last() == chars@[i as int]);
        }
        match exec_digit_value(chars[i]) {
            None => {
                proof {
                    assert(!is_digit(body[i - from]));
                }
                return None;
            },
            Some(d) => {
                proof {
                    assert forall|j: int| 0 <= j < after.len() implies is_digit(
                        #[trigger] after[j],
                    ) by {
                        if j < before.len() {
                            assert(after[j] == before[j]);
                        }
                    }
                }
                if acc > limit / 10 || (acc == limit / 10 && d as u64 > limit % 10) {
                    proof {
                        assert(digits_value(after) > limit);
                        if all_digits(body) {
                            lemma_digits_value_monotonic(body, i + 1 - from);
                        }
                    }
                    return None;
                }
                acc = acc * 10 + d as u64;
            },
        }
        i = i + 1;
    }
    proof {
        assert(body.take(i - from) =~= body);
    }
    Some(acc)
}

/// Reads a signed 64-bit number from its decimal text.
pub fn parse_i64(s: &str) -> (r: Option<i64>)
    ensures
        r == parse_i64_spec(s@),
{
    let chars = chars_of(s);
    if chars.len() == 0 {
        return None;
    }
    if chars[0] == '-' {
        match parse_digits(&chars, 1, 0x8000_0000_0000_0000u64) {
            None => None,
            Some(m) => if m == 0x8000_0000_0000_0000u64 {
                Some(i64::MIN)
            } else {
                Some(-(m as i64))
            },
        }
    } else if chars[0] == '+' {
        match parse_digits(&chars, 1, 0x7fff_ffff_ffff_ffffu64) {
            None => None,
            Some(m) => Some(m as i64),
        }
    } else {
        proof {
            assert(chars@.skip(0) =~= chars@);
        }
        match parse_digits(&chars, 0, 0x7fff_ffff_ffff_ffffu64) {
            None => None,
            Some(m) => Some(m as i64),
        }
    }
}

/// Reads an unsigned number no larger than `max` from its decimal text.
pub fn parse_unsigned(s: &str, max: u64) -> (r: Option<u64>)
    ensures
        r is Some <==> parse_unsigned_spec(s@, max as int) is Some,
        r matches Some(n) ==> n <= max && parse_unsigned_spec(s@, max as int) == Some(n as int),
{
    let chars = chars_of(s);
    if chars.len() == 0 {
        return None;
    }
    if chars[0] == '-' {
        None
    } else if chars[0] == '+' {
        parse_digits(&chars, 1, max)
    } else {
        proof {
            assert(chars@.skip(0) =~= chars@);
        }
        parse_digits(&chars, 0, max)
    }
}

/// Appends the last `width` hexadecimal digits of `v` to `text`.
pub fn push_hex_fixed(text: &mut String, v: u64, width: u32)
    ensures
        final(text)@ == old(text)@ + hex_fixed(v as nat, width as nat),
    decreases width,
{
    if width > 0 {
        push_hex_fixed(text, v / 16, width - 1);
        push_char(text, exec_hex_char((v % 16) as u8));
    }
}

/// The 64-bit pattern of `n` as an unsigned number.
pub fn bits_of(n: i64) -> (r: u64)
    ensures
        r == twos_complement(n),
{
    if n >= 0 {
        n as u64
    } else {
        ((n - i64::MIN) as u64) + 0x8000_0000_0000_0000u64
    }
}

} // verus!
