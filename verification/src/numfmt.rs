//! Decimal rendering and parsing of integers: the `{}` and `{:06}` renderings
//! the backend uses for counters and verification codes, and the `u16`
//! parsing it uses for ports.
use vstd::prelude::*;

use crate::text::is_ascii_digit;

verus! {

/// The ASCII digit for `d` (0..=9).
pub open spec fn digit_char(d: int) -> char {
    (('0' as u32) + d) as char
}

/// The value of an ASCII digit.
pub open spec fn digit_value(c: char) -> int {
    (c as u32) - ('0' as u32)
}

/// The shortest decimal rendering of a natural number.
pub open spec fn digits_of(n: nat) -> Seq<char>
    decreases n,
{
    if n < 10 {
        seq![digit_char(n as int)]
    } else {
        digits_of(n / 10).push(digit_char((n % 10) as int))
    }
}

/// The decimal rendering of an integer (`{}` of a signed integer).
pub open spec fn decimal_of(n: int) -> Seq<char> {
    if n < 0 {
        seq!['-'] + digits_of((-n) as nat)
    } else {
        digits_of(n as nat)
    }
}

/// Exactly six digits of `v` (`{:06}` of a value below one million).
pub open spec fn six_digits(v: nat) -> Seq<char> {
    seq![
        digit_char(((v / 100000) % 10) as int),
        digit_char(((v / 10000) % 10) as int),
        digit_char(((v / 1000) % 10) as int),
        digit_char(((v / 100) % 10) as int),
        digit_char(((v / 10) % 10) as int),
        digit_char((v % 10) as int),
    ]
}

pub open spec fn all_digits(s: Seq<char>) -> bool {
    forall|i: int| 0 <= i < s.len() ==> is_ascii_digit(#[trigger] s[i])
}

/// The value of a string of ASCII digits.
pub open spec fn digits_value(s: Seq<char>) -> nat
    decreases s.len(),
{
    if s.len() == 0 {
        0
    } else {
        (digits_value(s.drop_last()) * 10 + digit_value(s.last())) as nat
    }
}

/// The digits of an unsigned number: the string without one leading `+`.
pub open spec fn unsigned_body(s: Seq<char>) -> Seq<char> {
    if s.len() > 0 && s[0] == '+' {
        s.drop_first()
    } else {
        s
    }
}

/// What std `str::parse::<u16>` accepts and yields: an optional `+`, then at
/// least one ASCII digit, with a value that fits in 16 bits.
pub open spec fn parse_u16_spec(s: Seq<char>) -> Option<u16> {
    let body = unsigned_body(s);
    if body.len() > 0 && all_digits(body) && digits_value(body) <= 0xFFFF {
        Some(digits_value(body) as u16)
    } else {
        None
    }
}

// ---------------------------------------------------------------------------
proof fn lemma_digits_of_all_digits(n: nat)
    ensures
        all_digits(digits_of(n)),
        digits_of(n).len() >= 1,
    decreases n,
{
    if n >= 10 {
        lemma_digits_of_all_digits(n / 10);
    }
}

proof fn lemma_digit_char_injective(a: int, b: int)
    requires
        0 <= a < 10,
        0 <= b < 10,
        digit_char(a) == digit_char(b),
    ensures
        a == b,
{
    assert((digit_char(a) as u32) == 48 + a);
    assert((digit_char(b) as u32) == 48 + b);
}

/// Two naturals with the same decimal rendering are equal.
pub proof fn lemma_digits_of_injective(a: nat, b: nat)
    requires
        digits_of(a) == digits_of(b),
    ensures
        a == b,
    decreases a,
{
    if a < 10 && b < 10 {
        let x = digit_char(a as int);
        let y = digit_char(b as int);
        assert(digits_of(a) =~= seq![x]);
        assert(digits_of(b) =~= seq![y]);
        assert(seq![x][0] == x);
        assert(seq![y][0] == y);
        assert(x == y);
        lemma_digit_char_injective(a as int, b as int);
    } else if a >= 10 && b >= 10 {
        let da = digits_of(a);
        let db = digits_of(b);
        assert(da.drop_last() =~= digits_of(a / 10));
        assert(db.drop_last() =~= digits_of(b / 10));
        assert(da.last() == db.last());
        lemma_digit_char_injective((a % 10) as int, (b % 10) as int);
        lemma_digits_of_injective(a / 10, b / 10);
    } else if a < 10 {
        lemma_digits_of_all_digits(b / 10);
        assert(digits_of(b).len() == digits_of(b / 10).len() + 1);
    } else {
        lemma_digits_of_all_digits(a / 10);
        assert(digits_of(a).len() == digits_of(a / 10).len() + 1);
    }
}

/// Two integers with the same decimal rendering are equal.
pub proof fn lemma_decimal_of_injective(a: int, b: int)
    requires
        decimal_of(a) == decimal_of(b),
    ensures
        a == b,
{
    lemma_digits_of_all_digits(if a < 0 { (-a) as nat } else { a as nat });
    lemma_digits_of_all_digits(if b < 0 { (-b) as nat } else { b as nat });
    if a < 0 && b < 0 {
        assert(decimal_of(a).drop_first() =~= digits_of((-a) as nat));
        assert(decimal_of(b).drop_first() =~= digits_of((-b) as nat));
        lemma_digits_of_injective((-a) as nat, (-b) as nat);
    } else if a >= 0 && b >= 0 {
        lemma_digits_of_injective(a as nat, b as nat);
    } else if a < 0 {
        assert(decimal_of(a)[0] == '-');
        assert(is_ascii_digit(decimal_of(b)[0]));
    } else {
        assert(decimal_of(b)[0] == '-');
        assert(is_ascii_digit(decimal_of(a)[0]));
    }
}

// ---------------------------------------------------------------------------
fn digit_to_char(d: u64) -> (r: char)
    requires
        d < 10,
    ensures
        r == digit_char(d as int),
{
    let b: u8 = 48 + (d as u8);
    b as char
}

/// The decimal rendering of a `u64` (`{}`).
pub fn u64_to_decimal(n: u64) -> (r: Vec<char>)
    ensures
        r@ == digits_of(n as nat),
    decreases n,
{
    if n < 10 {
        let mut v: Vec<char> = Vec::new();
        v.push(digit_to_char(n));
        v
    } else {
        let mut v = u64_to_decimal(n / 10);
        v.push(digit_to_char(n % 10));
        v
    }
}

/// The decimal rendering of an `i64` (`{}`).
pub fn i64_to_decimal(n: i64) -> (r: Vec<char>)
    ensures
        r@ == decimal_of(n as int),
{
    if n < 0 {
        let m: u64 = if n == i64::MIN {
            9223372036854775808u64
        } else {
            (-n) as u64
        };
        let digits = u64_to_decimal(m);
        let mut v: Vec<char> = Vec::new();
        v.push('-');
        let mut i: usize = 0;
        while i < digits.len()
            invariant
                0 <= i <= digits@.len(),
                v@ == seq!['-'] + digits@.take(i as int),
            decreases digits@.len() - i,
        {
            v.push(digits[i]);
            assert(digits@.take(i + 1) =~= digits@.take(i as int).push(digits@[i as int]));
            i += 1;
        }
        assert(digits@.take(digits@.len() as int) =~= digits@);
        v
    } else {
        u64_to_decimal(n as u64)
    }
}

/// Exactly six decimal digits of `v`, zero-padded (`{:06}` of a value below
/// one million).
pub fn six_digit_chars(v: u32) -> (r: Vec<char>)
    requires
        v < 1000000,
    ensures
        r@ == six_digits(v as nat),
{
    let mut out: Vec<char> = Vec::new();
    out.push(digit_to_char(((v / 100000) % 10) as u64));
    out.push(digit_to_char(((v / 10000) % 10) as u64));
    out.push(digit_to_char(((v / 1000) % 10) as u64));
    out.push(digit_to_char(((v / 100) % 10) as u64));
    out.push(digit_to_char(((v / 10) % 10) as u64));
    out.push(digit_to_char((v % 10) as u64));
    assert(out@ =~= six_digits(v as nat));
    out
}

/// std `str::parse::<u16>`, written over the characters of the string.
pub fn parse_u16(s: &[char]) -> (r: Option<u16>)
    ensures
        r == parse_u16_spec(s@),
{
    let start: usize = if s.len() > 0 && s[0] == '+' { 1 } else { 0 };
    let ghost body = unsigned_body(s@);
    assert(body =~= s@.subrange(start as int, s@.len() as int));
    if start >= s.len() {
        return None;
    }
    let n = s.len();
    let mut i: usize = start;
    let mut acc: u32 = 0;
    while i < n
        invariant
            n == s@.len(),
            start <= i <= n,
            body == s@.subrange(start as int, n as int),
            body == unsigned_body(s@),
            all_digits(s@.subrange(start as int, i as int)),
            acc == digits_value(s@.subrange(start as int, i as int)),
            acc <= 0xFFFF,
        decreases n - i,
    {
        let c = s[i];
        let ghost pre = s@.subrange(start as int, i as int);
        let ghost next = s@.subrange(start as int, i + 1);
        assert(next.drop_last() =~= pre);
        assert(next.last() == c);
        if !('0' <= c && c <= '9') {
            assert(body[i - start] == s@[i as int]);
            assert(!is_ascii_digit(body[i - start]));
            assert(!all_digits(body));
            assert(body == unsigned_body(s@));
            assert(!(body.len() > 0 && all_digits(body) && digits_value(body) <= 0xFFFF));
            assert(parse_u16_spec(s@) is None);
            return None;
        }
        let d: u32 = (c as u32) - 48;
        let nacc: u32 = acc * 10 + d;
        assert(nacc == digits_value(next));
        assert(all_digits(next)) by {
            assert forall|k: int| 0 <= k < next.len() implies is_ascii_digit(#[trigger] next[k]) by {
                if k < pre.len() {
                    assert(next[k] == pre[k]);
                }
            }
        }
        if nacc > 0xFFFF {
            proof {
                lemma_digits_value_prefix_bound(body, (i + 1 - start) as int);
                assert(body.take((i + 1 - start) as int) =~= next);
            }
            return None;
        }
        acc = nacc;
        i += 1;
    }
    Some(acc as u16)
}

/// A longer digit string never has a smaller value than its prefix.
proof fn lemma_digits_value_prefix_bound(s: Seq<char>, k: int)
    requires
        0 <= k <= s.len(),
    ensures
        all_digits(s) ==> digits_value(s.take(k)) <= digits_value(s),
    decreases s.len() - k,
{
    if k < s.len() {
        lemma_digits_value_prefix_bound(s, k + 1);
        if all_digits(s) {
            let t = s.take(k + 1);
            assert(t.drop_last() =~= s.take(k));
            assert(is_ascii_digit(s[k]));
            assert(t.last() == s[k]);
        }
    } else {
        assert(s.take(k) =~= s);
    }
}

} // verus!
