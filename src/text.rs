//! Decimal digits in text: finding and reading a run of digits, and
//! writing a number out.

use vstd::prelude::*;

verus! {

/// An ASCII decimal digit.
pub open spec fn is_digit(c: char) -> bool {
    '0' <= c && c <= '9'
}

/// The value of a digit character.
pub open spec fn digit_value(c: char) -> nat {
    (c as int - '0' as int) as nat
}

/// The value of a string of digits read in base ten; the empty string
/// reads as zero.
pub open spec fn digits_value(s: Seq<char>) -> nat
    decreases s.len(),
{
    if s.len() == 0 {
        0
    } else {
        digits_value(s.drop_last()) * 10 + digit_value(s.last())
    }
}

/// The character of a digit value below ten.
pub open spec fn digit_char(d: nat) -> char {
    if d == 0 {
        '0'
    } else if d == 1 {
        '1'
    } else if d == 2 {
        '2'
    } else if d == 3 {
        '3'
    } else if d == 4 {
        '4'
    } else if d == 5 {
        '5'
    } else if d == 6 {
        '6'
    } else if d == 7 {
        '7'
    } else if d == 8 {
        '8'
    } else {
        '9'
    }
}

/// `n` written in base ten, without leading zeros.
pub open spec fn decimal_text(n: nat) -> Seq<char>
    decreases n,
{
    if n < 10 {
        seq![digit_char(n)]
    } else {
        decimal_text(n / 10).push(digit_char(n % 10))
    }
}

/// `a` is the index of the first digit of `s`.
pub open spec fn first_digit_at(s: Seq<char>, a: int) -> bool {
    &&& 0 <= a < s.len()
    &&& is_digit(s[a])
    &&& forall|k: int| 0 <= k < a ==> !is_digit(#[trigger] s[k])
}

/// `s[a..b]` is a run of digits that cannot be made longer to the right.
pub open spec fn run_end(s: Seq<char>, a: int, b: int) -> bool {
    &&& 0 <= a <= b <= s.len()
    &&& forall|k: int| a <= k < b ==> is_digit(#[trigger] s[k])
    &&& (b == s.len() || !is_digit(s[b]))
}

/// `s` begins with `p`.
pub open spec fn starts_with(s: Seq<char>, p: Seq<char>) -> bool {
    p.len() <= s.len() && s.subrange(0, p.len() as int) == p
}

/// A maximal run of digits has one end.
pub proof fn lemma_run_end_unique(s: Seq<char>, a: int, b: int, c: int)
    requires
        run_end(s, a, b),
        run_end(s, a, c),
    ensures
        b == c,
{
    if b < c {
        assert(is_digit(s[b]));
    } else if c < b {
        assert(is_digit(s[c]));
    }
}

/// Does `s` begin with `p`?
pub fn str_starts_with(s: &str, p: &str) -> (r: bool)
    ensures
        r == starts_with(s@, p@),
{
    let n = s.unicode_len();
    let m = p.unicode_len();
    if m > n {
        return false;
    }
    let mut i: usize = 0;
    while i < m
        invariant
            n == s@.len(),
            m == p@.len(),
            m <= n,
            i <= m,
            forall|k: int| 0 <= k < i ==> s@[k] == p@[k],
        decreases m - i,
    {
        if s.get_char(i) != p.get_char(i) {
            assert(s@.subrange(0, m as int)[i as int] != p@[i as int]);
            return false;
        }
        i = i + 1;
    }
    assert(s@.subrange(0, m as int) =~= p@);
    true
}

/// Are the two strings equal?
pub fn str_eq(a: &str, b: &str) -> (r: bool)
    ensures
        r == (a@ == b@),
{
    if a.unicode_len() != b.unicode_len() {
        return false;
    }
    let r = str_starts_with(a, b);
    assert(a@ =~= a@.subrange(0, b@.len() as int));
    r
}

/// The number in a text: its first run of digits read in base ten, when
/// there is one and it fits in an `i32`.
pub open spec fn title_amount(s: Seq<char>) -> Option<i32> {
    if exists|a: int| first_digit_at(s, a) {
        let a = choose|a: int| first_digit_at(s, a);
        let b = choose|b: int| run_end(s, a, b);
        if digits_value(s.subrange(a, b)) <= i32::MAX {
            Some(digits_value(s.subrange(a, b)) as i32)
        } else {
            None
        }
    } else {
        None
    }
}

/// A number written as an optional `+` and one or more digits, with
/// nothing else, when its value is at most `limit`.
pub open spec fn decimal_value(s: Seq<char>, limit: int) -> Option<nat> {
    let start: int = if s.len() > 0 && s[0] == '+' {
        1
    } else {
        0
    };
    if s.len() > start && (forall|k: int| start <= k < s.len() ==> is_digit(#[trigger] s[k]))
        && digits_value(s.subrange(start, s.len() as int)) <= limit {
        Some(digits_value(s.subrange(start, s.len() as int)))
    } else {
        None
    }
}

/// Reads a whole string as a number: an optional `+`, then digits only,
/// with a value at most `limit`.
pub fn parse_decimal(s: &str, limit: u64) -> (r: Option<u64>)
    ensures
        r == (match decimal_value(s@, limit as int) {
            Some(v) => Some(v as u64),
            None => None::<u64>,
        }),
{
    let len = s.unicode_len();
    let start: usize = if len > 0 && s.get_char(0) == '+' {
        1
    } else {
        0
    };
    if len <= start {
        return None;
    }
    let (end, v) = scan_digits(s, len, start, limit);
    if end < len {
        assert(!is_digit(s@[end as int]));
        return None;
    }
    v
}

/// Relies on String::push: appends one character.
#[verifier::external_body]
pub(crate) fn push_char(s: &mut String, c: char)
    ensures
        final(s)@ == old(s)@.push(c),
{
    s.push(c)
}

proof fn lemma_digits_value_push(s: Seq<char>, c: char)
    ensures
        digits_value(s.push(c)) == digits_value(s) * 10 + digit_value(c),
{
    assert(s.push(c).drop_last() =~= s);
}

/// Reads the run of digits that starts at `start`. Returns where the run
/// ends and its value, or `None` for the value when it exceeds `limit`.
pub(crate) fn scan_digits(s: &str, len: usize, start: usize, limit: u64) -> (r: (usize, Option<u64>))
    requires
        len == s@.len(),
        start <= len,
    ensures
        run_end(s@, start as int, r.0 as int),
        r.1 == (if digits_value(s@.subrange(start as int, r.0 as int)) <= limit {
            Some(digits_value(s@.subrange(start as int, r.0 as int)) as u64)
        } else {
            None::<u64>
        }),
{
    let mut i: usize = start;
    let mut acc: u64 = 0;
    let mut over = false;
    assert(s@.subrange(start as int, start as int) =~= Seq::<char>::empty());
    loop
        invariant
            len == s@.len(),
            start <= i <= len,
            forall|k: int| start <= k < i ==> is_digit(#[trigger] s@[k]),
            over ==> digits_value(s@.subrange(start as int, i as int)) > limit,
            !over ==> acc == digits_value(s@.subrange(start as int, i as int)) && acc <= limit,
        ensures
            start <= i <= len,
            i == len || !is_digit(s@[i as int]),
            forall|k: int| start <= k < i ==> is_digit(#[trigger] s@[k]),
            over ==> digits_value(s@.subrange(start as int, i as int)) > limit,
            !over ==> acc == digits_value(s@.subrange(start as int, i as int)) && acc <= limit,
        decreases len - i,
    {
        if i >= len {
            break;
        }
        let c = s.get_char(i);
        if !(c >= '0' && c <= '9') {
            break;
        }
        let d = (c as u32 - '0' as u32) as u64;
        proof {
            assert(s@.subrange(start as int, i + 1) =~= s@.subrange(start as int, i as int).push(c));
            lemma_digits_value_push(s@.subrange(start as int, i as int), c);
        }
        if !over {
            if d <= limit && acc <= (limit - d) / 10 {
                assert(acc * 10 + d <= limit) by (nonlinear_arith)
                    requires
                        d <= limit,
                        acc <= (limit - d) / 10,
                ;
                acc = acc * 10 + d;
            } else {
                assert(acc * 10 + d > limit) by (nonlinear_arith)
                    requires
                        !(d <= limit && acc <= (limit - d) / 10),
                        d < 10,
                ;
                over = true;
            }
        }
        i = i + 1;
    }
    if over {
        (i, None)
    } else {
        (i, Some(acc))
    }
}

/// The number in `input`: the first run of decimal digits, read in base
/// ten. `None` when there is no digit, or when the number does not fit
/// in an `i32`.
pub fn extract_int(input: &str) -> (r: Option<i32>)
    ensures
        r == title_amount(input@),
        (forall|k: int| 0 <= k < input@.len() ==> !is_digit(#[trigger] input@[k])) ==> r is None,
        forall|a: int, b: int|
            #![trigger first_digit_at(input@, a), run_end(input@, a, b)]
            first_digit_at(input@, a) && run_end(input@, a, b) ==> r == (if digits_value(
                input@.subrange(a, b),
            ) <= i32::MAX {
                Some(digits_value(input@.subrange(a, b)) as i32)
            } else {
                None::<i32>
            }),
{
    let len = input.unicode_len();
    let mut a: usize = 0;
    while a < len
        invariant
            len == input@.len(),
            a <= len,
            forall|k: int| 0 <= k < a ==> !is_digit(#[trigger] input@[k]),
        ensures
            a <= len,
            forall|k: int| 0 <= k < a ==> !is_digit(#[trigger] input@[k]),
            a < len ==> is_digit(input@[a as int]),
        decreases len - a,
    {
        let c = input.get_char(a);
        if c >= '0' && c <= '9' {
            break;
        }
        a = a + 1;
    }
    if a >= len {
        return None;
    }
    let (b, v) = scan_digits(input, len, a, 2147483647);
    proof {
        assert(first_digit_at(input@, a as int));
        let ca = choose|a: int| first_digit_at(input@, a);
        let cb = choose|b: int| run_end(input@, ca, b);
        assert forall|a2: int, b2: int|
            first_digit_at(input@, a2) && run_end(input@, a2, b2) implies a2 == a && b2 == b by {
            if a2 < a {
                assert(!is_digit(input@[a2]));
            } else if a < a2 {
                assert(!is_digit(input@[a as int]));
            }
            lemma_run_end_unique(input@, a as int, b as int, b2);
        }
        assert(ca == a && cb == b);
    }
    match v {
        Some(n) => Some(n as i32),
        None => None,
    }
}

fn digit_char_of(d: u64) -> (c: char)
    requires
        d < 10,
    ensures
        c == digit_char(d as nat),
{
    if d == 0 {
        '0'
    } else if d == 1 {
        '1'
    } else if d == 2 {
        '2'
    } else if d == 3 {
        '3'
    } else if d == 4 {
        '4'
    } else if d == 5 {
        '5'
    } else if d == 6 {
        '6'
    } else if d == 7 {
        '7'
    } else if d == 8 {
        '8'
    } else {
        '9'
    }
}

/// Appends `n` in base ten to `s`.
pub fn push_decimal(s: &mut String, n: u64)
    ensures
        final(s)@ == old(s)@ + decimal_text(n as nat),
    decreases n,
{
    if n >= 10 {
        push_decimal(s, n / 10);
    }
    let c = digit_char_of(n % 10);
    push_char(s, c);
    if n >= 10 {
        assert(final(s)@ =~= old(s)@ + decimal_text(n as nat));
    } else {
        assert(final(s)@ =~= old(s)@ + decimal_text(n as nat));
    }
}

/// `n` written in base ten, with a leading minus sign when negative.
pub open spec fn signed_decimal_text(n: int) -> Seq<char> {
    if n < 0 {
        seq!['-'] + decimal_text((-n) as nat)
    } else {
        decimal_text(n as nat)
    }
}

/// Appends `n` in base ten, signed, to `s`.
pub fn push_signed_decimal(s: &mut String, n: i64)
    requires
        n > i64::MIN,
    ensures
        final(s)@ == old(s)@ + signed_decimal_text(n as int),
{
    if n < 0 {
        push_char(s, '-');
        push_decimal(s, (0 - n) as u64);
        assert(final(s)@ =~= old(s)@ + signed_decimal_text(n as int));
    } else {
        push_decimal(s, n as u64);
    }
}

} // verus!
