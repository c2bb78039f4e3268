//! Decimal text for unsigned integers, as token metadata stores numbers.
//!
//! Reading follows the grammar of `u64::from_str` / `u8::from_str`: an
//! optional `+`, then at least one ASCII digit, and nothing else; a value
//! above the type's maximum is refused.  Writing gives the shortest form,
//! without sign or leading zeros, as `to_string` does.
use vstd::prelude::*;

verus! {

/// Whether `c` is one of `0`..`9`.
pub open spec fn is_digit(c: char) -> bool {
    '0' <= c && c <= '9'
}

/// The value of the digit `c`.
pub open spec fn digit_value(c: char) -> nat {
    (c as int - '0' as int) as nat
}

/// Whether every character of `s` is a digit.
pub open spec fn all_digits(s: Seq<char>) -> bool {
    forall|i: int| 0 <= i < s.len() ==> #[trigger] is_digit(s[i])
}

/// The number that the digit string `s` denotes (most significant first).
pub open spec fn digits_value(s: Seq<char>) -> nat
    decreases s.len(),
{
    if s.len() == 0 {
        0
    } else {
        digits_value(s.drop_last()) * 10 + digit_value(s.last())
    }
}

/// The digits of `s` once an optional leading `+` is removed.
pub open spec fn unsigned_digits(s: Seq<char>) -> Seq<char> {
    if s.len() > 0 && s[0] == '+' {
        s.drop_first()
    } else {
        s
    }
}

/// What reading `s` as an unsigned integer no larger than `max` gives.
pub open spec fn parse_unsigned(s: Seq<char>, max: nat) -> Option<nat> {
    let d = unsigned_digits(s);
    if d.len() > 0 && all_digits(d) && digits_value(d) <= max {
        Some(digits_value(d))
    } else {
        None
    }
}

/// The character of the digit `d` (`d < 10`).
pub open spec fn digit_char(d: nat) -> char {
    (d + '0' as int) as char
}

/// The shortest decimal text of `n`.
pub open spec fn decimal_text(n: nat) -> Seq<char>
    decreases n,
{
    if n < 10 {
        seq![digit_char(n)]
    } else {
        decimal_text(n / 10).push(digit_char(n % 10))
    }
}

proof fn lemma_digits_value_take(s: Seq<char>, k: int)
    requires
        0 <= k < s.len(),
    ensures
        digits_value(s.take(k + 1)) == digits_value(s.take(k)) * 10 + digit_value(s[k]),
{
    assert(s.take(k + 1).drop_last() =~= s.take(k));
}

proof fn lemma_digits_value_monotone(s: Seq<char>, k: int)
    requires
        0 <= k <= s.len(),
    ensures
        digits_value(s.take(k)) <= digits_value(s),
    decreases s.len() - k,
{
    if k < s.len() {
        lemma_digits_value_take(s, k);
        lemma_digits_value_monotone(s, k + 1);
    } else {
        assert(s.take(k) =~= s);
    }
}

/// Reads `text` as an unsigned integer no larger than `max`.
pub fn parse_unsigned_decimal(text: &str, max: u64) -> (r: Option<u64>)
    ensures
        r matches Some(v) ==> parse_unsigned(text@, max as nat) == Some(v as nat),
        r is None ==> parse_unsigned(text@, max as nat) is None,
{
    let len = text.unicode_len();
    if len == 0 {
        return None;
    }
    let start: usize = if text.get_char(0) == '+' { 1 } else { 0 };
    let ghost d = unsigned_digits(text@);
    assert(d =~= text@.subrange(start as int, len as int));
    if start == len {
        return None;
    }
    let mut acc: u64 = 0;
    let mut i: usize = start;
    while i < len
        invariant
            len == text@.len(),
            start <= i <= len,
            d =~= text@.subrange(start as int, len as int),
            d == unsigned_digits(text@),
            forall|j: int| 0 <= j < i - start ==> #[trigger] is_digit(d[j]),
            acc as nat == digits_value(d.take(i - start)),
            acc <= max,
        decreases len - i,
    {
        let c = text.get_char(i);
        proof {
            lemma_digits_value_take(d, i - start);
        }
        assert(d[i - start] == c);
        if !('0' <= c && c <= '9') {
            assert(!is_digit(d[i - start]));
            assert(!all_digits(d));
            return None;
        }
        let digit = (c as u32 - '0' as u32) as u64;
        assert(digit as nat == digit_value(d[i - start]));
        if digit > max {
            proof {
                lemma_digits_value_monotone(d, i - start + 1);
            }
            return None;
        }
        if acc > (max - digit) / 10 {
            proof {
                assert(digits_value(d.take(i - start + 1)) > max) by (nonlinear_arith)
                    requires
                        digits_value(d.take(i - start + 1)) == acc * 10 + digit,
                        acc > (max - digit) / 10,
                        digit <= max,
                        acc >= 0,
                ;
                lemma_digits_value_monotone(d, i - start + 1);
            }
            return None;
        }
        assert(acc * 10 + digit <= max) by (nonlinear_arith)
            requires
                acc <= (max - digit) / 10,
                digit <= max,
        ;
        acc = acc * 10 + digit;
        i = i + 1;
    }
    assert(d.take(len - start) =~= d);
    Some(acc)
}

/// Reads `text` as a `u8`, as `text.parse::<u8>()` does.
pub fn parse_u8(text: &str) -> (r: Option<u8>)
    ensures
        r matches Some(v) ==> parse_unsigned(text@, u8::MAX as nat) == Some(v as nat),
        r is None ==> parse_unsigned(text@, u8::MAX as nat) is None,
{
    match parse_unsigned_decimal(text, u8::MAX as u64) {
        Some(v) => Some(v as u8),
        None => None,
    }
}

/// Reads `text` as a `u64`, as `text.parse::<u64>()` does.
pub fn parse_u64(text: &str) -> (r: Option<u64>)
    ensures
        r matches Some(v) ==> parse_unsigned(text@, u64::MAX as nat) == Some(v as nat),
        r is None ==> parse_unsigned(text@, u64::MAX as nat) is None,
{
    parse_unsigned_decimal(text, u64::MAX)
}

/// The one-character text of the digit `d`.
fn digit_text(d: u64) -> (r: &'static str)
    requires
        d < 10,
    ensures
        r@ == seq![digit_char(d as nat)],
{
    let digits = "0123456789";
    proof {
        reveal_strlit("0123456789");
        assert(vstd::string::is_ascii(digits));
    }
    let r = digits.substring_ascii(d as usize, d as usize + 1);
    assert(r@ =~= seq![digit_char(d as nat)]);
    r
}

/// The decimal text of `n`, as `n.to_string()` writes it.
pub fn decimal_string(n: u64) -> (r: String)
    ensures
        r@ == decimal_text(n as nat),
    decreases n,
{
    if n < 10 {
        let mut s = String::new();
        s.append(digit_text(n));
        assert(s@ =~= decimal_text(n as nat));
        s
    } else {
        let mut s = decimal_string(n / 10);
        s.append(digit_text(n % 10));
        s
    }
}

proof fn lemma_decimal_text_digits(n: nat)
    ensures
        decimal_text(n).len() > 0,
        all_digits(decimal_text(n)),
        digits_value(decimal_text(n)) == n,
    decreases n,
{
    if n >= 10 {
        lemma_decimal_text_digits(n / 10);
        let t = decimal_text(n);
        assert(t.drop_last() =~= decimal_text(n / 10));
        assert(digit_value(t.last()) == n % 10);
        assert(digits_value(t) == (n / 10) * 10 + n % 10);
        assert((n / 10) * 10 + n % 10 == n) by (nonlinear_arith);
        assert forall|i: int| 0 <= i < t.len() implies #[trigger] is_digit(t[i]) by {
            if i < t.len() - 1 {
                assert(t[i] == decimal_text(n / 10)[i]);
            }
        }
    } else {
        let t = decimal_text(n);
        assert(t.drop_last() =~= Seq::<char>::empty());
        assert(digits_value(t.drop_last()) == 0);
        assert(digits_value(t) == digit_value(t.last()));
    }
}

/// Reading back the decimal text of `n` gives `n`, for every bound
/// `max` that `n` respects.
pub proof fn lemma_decimal_round_trip(n: nat, max: nat)
    requires
        n <= max,
    ensures
        parse_unsigned(decimal_text(n), max) == Some(n),
{
    lemma_decimal_text_digits(n);
    let t = decimal_text(n);
    assert(is_digit(t[0]));
    assert(unsigned_digits(t) == t);
}

} // verus!
