//! Strict parsing of the numbers that a text field may hold.
//!
//! An integer is an optional sign followed by decimal digits and nothing
//! else; a value outside the target range is an error of its own. A real
//! number is checked against the grammar of decimal literals and kept as
//! text.

use vstd::prelude::*;

verus! {

/// Why a text is not an integer of the wanted type.
#[derive(Clone, Copy, Debug, PartialEq, Eq, Structural)]
pub enum IntError {
    /// The text is empty.
    Empty,
    /// A character is no decimal digit, or a sign stands alone.
    InvalidDigit,
    /// The value is above the largest of the type.
    PosOverflow,
    /// The value is below the smallest of the type.
    NegOverflow,
}

pub open spec fn is_digit(c: char) -> bool {
    '0' <= c && c <= '9'
}

pub open spec fn digit_value(c: char) -> int {
    c as int - '0' as int
}

/// The number of decimal digits that `s` begins with.
pub open spec fn digit_run(s: Seq<char>) -> int
    decreases s.len(),
{
    if s.len() == 0 || !is_digit(s[0]) {
        0
    } else {
        1 + digit_run(s.skip(1))
    }
}

/// The value of a sequence of decimal digits, the first one weighing most.
pub open spec fn decimal_value(s: Seq<char>) -> int
    decreases s.len(),
{
    if s.len() == 0 {
        0
    } else {
        decimal_value(s.drop_last()) * 10 + digit_value(s.last())
    }
}

/// What the digits `d` stand for where the magnitude may not exceed `max`.
/// Reading from the left, whichever comes first decides: a magnitude above
/// `max` is reported as `over`, a character that is no digit as
/// `InvalidDigit`.
pub open spec fn magnitude(d: Seq<char>, max: int, over: IntError) -> Result<int, IntError> {
    let k = digit_run(d);
    if d.len() == 0 {
        Err(IntError::InvalidDigit)
    } else if decimal_value(d.take(k)) > max {
        Err(over)
    } else if k < d.len() {
        Err(IntError::InvalidDigit)
    } else {
        Ok(decimal_value(d))
    }
}

/// What `s` stands for as an unsigned integer of at most `max`: an optional
/// `+`, then digits.
pub open spec fn unsigned_of(s: Seq<char>, max: int) -> Result<int, IntError> {
    if s.len() == 0 {
        Err(IntError::Empty)
    } else if s[0] == '+' {
        magnitude(s.skip(1), max, IntError::PosOverflow)
    } else {
        magnitude(s, max, IntError::PosOverflow)
    }
}

/// What `s` stands for as a signed integer between `-(max + 1)` and `max`:
/// an optional `+` or `-`, then digits.
pub open spec fn signed_of(s: Seq<char>, max: int) -> Result<int, IntError> {
    if s.len() == 0 {
        Err(IntError::Empty)
    } else if s[0] == '+' {
        magnitude(s.skip(1), max, IntError::PosOverflow)
    } else if s[0] == '-' {
        match magnitude(s.skip(1), max + 1, IntError::NegOverflow) {
            Ok(v) => Ok(-v),
            Err(e) => Err(e),
        }
    } else {
        magnitude(s, max, IntError::PosOverflow)
    }
}

pub proof fn lemma_digit_run_bounds(s: Seq<char>)
    ensures
        0 <= digit_run(s) <= s.len(),
        forall|j: int| 0 <= j < digit_run(s) ==> is_digit(s[j]),
        digit_run(s) < s.len() ==> !is_digit(s[digit_run(s)]),
    decreases s.len(),
{
    if s.len() > 0 && is_digit(s[0]) {
        let t = s.skip(1);
        lemma_digit_run_bounds(t);
        assert forall|j: int| 0 <= j < digit_run(s) implies is_digit(s[j]) by {
            if j > 0 {
                assert(t[j - 1] == s[j]);
            }
        }
        if digit_run(s) < s.len() {
            assert(t[digit_run(t)] == s[digit_run(s)]);
        }
    }
}

/// A position that holds no digit, with digits alone before it, ends the run.
pub proof fn lemma_digit_run_is(s: Seq<char>, k: int)
    requires
        0 <= k <= s.len(),
        forall|j: int| 0 <= j < k ==> is_digit(s[j]),
        k < s.len() ==> !is_digit(s[k]),
    ensures
        digit_run(s) == k,
{
    lemma_digit_run_bounds(s);
}

/// The value of digits is not negative.
pub proof fn lemma_value_nonnegative(s: Seq<char>, a: int)
    requires
        0 <= a <= s.len(),
        forall|j: int| 0 <= j < a ==> is_digit(s[j]),
    ensures
        0 <= decimal_value(s.take(a)),
    decreases a,
{
    if a > 0 {
        lemma_value_nonnegative(s, a - 1);
        assert(s.take(a).drop_last() =~= s.take(a - 1));
        assert(s.take(a).last() == s[a - 1]);
    }
}

/// The value of digits grows with each digit added.
pub proof fn lemma_value_grows(s: Seq<char>, a: int, b: int)
    requires
        0 <= a <= b <= s.len(),
        forall|j: int| 0 <= j < b ==> is_digit(s[j]),
    ensures
        decimal_value(s.take(a)) <= decimal_value(s.take(b)),
    decreases b - a,
{
    if a < b {
        lemma_value_grows(s, a, b - 1);
        lemma_value_nonnegative(s, b - 1);
        assert(s.take(b).drop_last() =~= s.take(b - 1));
        assert(s.take(b).last() == s[b - 1]);
    }
}

/// The magnitude of the digits of `s` from position `from` on, where it is
/// at most `max`.
fn parse_magnitude(s: &str, from: usize, max: u64, over: IntError) -> (r: Result<u64, IntError>)
    requires
        from <= s@.len(),
    ensures
        match magnitude(s@.skip(from as int), max as int, over) {
            Ok(v) => r == Ok::<u64, IntError>(v as u64) && 0 <= v <= max,
            Err(e) => r == Err::<u64, IntError>(e),
        },
{
    let n = s.unicode_len();
    let ghost d = s@.skip(from as int);
    if from == n {
        return Err(IntError::InvalidDigit);
    }
    let mut acc: u64 = 0;
    let mut i: usize = from;
    assert(d.take(0) =~= Seq::<char>::empty());
    while i < n
        invariant
            n == s@.len(),
            from <= i <= n,
            from < n,
            d == s@.skip(from as int),
            forall|j: int| 0 <= j < i - from ==> is_digit(d[j]),
            acc == decimal_value(d.take(i - from)),
            acc <= max,
        decreases n - i,
    {
        let c = s.get_char(i);
        let ghost k = i - from;
        assert(d[k] == c);
        if c < '0' || c > '9' {
            proof {
                lemma_digit_run_is(d, k);
            }
            return Err(IntError::InvalidDigit);
        }
        let digit: u64 = (c as u32 - '0' as u32) as u64;
        proof {
            assert(d.take(k + 1).drop_last() =~= d.take(k));
            assert(d.take(k + 1).last() == c);
            assert(decimal_value(d.take(k + 1)) == acc * 10 + digit);
        }
        if acc > max / 10 || digit > max - acc * 10 {
            proof {
                lemma_digit_run_bounds(d);
                let run = digit_run(d);
                assert(run >= k + 1) by {
                    if run < k + 1 {
                        assert(is_digit(d[run]));
                    }
                }
                lemma_value_grows(d, k + 1, run);
            }
            return Err(over);
        }
        acc = acc * 10 + digit;
        i += 1;
    }
    proof {
        lemma_digit_run_is(d, n - from);
        assert(d.take(n - from) =~= d);
    }
    Ok(acc)
}

/// Reads an unsigned integer of at most `max`.
pub fn parse_unsigned(s: &str, max: u64) -> (r: Result<u64, IntError>)
    ensures
        match unsigned_of(s@, max as int) {
            Ok(v) => r == Ok::<u64, IntError>(v as u64) && 0 <= v <= max,
            Err(e) => r == Err::<u64, IntError>(e),
        },
{
    let n = s.unicode_len();
    if n == 0 {
        return Err(IntError::Empty);
    }
    if s.get_char(0) == '+' {
        parse_magnitude(s, 1, max, IntError::PosOverflow)
    } else {
        assert(s@.skip(0) =~= s@);
        parse_magnitude(s, 0, max, IntError::PosOverflow)
    }
}

/// Reads a 32-bit signed integer.
pub fn parse_i32(s: &str) -> (r: Result<i32, IntError>)
    ensures
        match signed_of(s@, i32::MAX as int) {
            Ok(v) => r == Ok::<i32, IntError>(v as i32) && i32::MIN <= v <= i32::MAX,
            Err(e) => r == Err::<i32, IntError>(e),
        },
{
    let n = s.unicode_len();
    if n == 0 {
        return Err(IntError::Empty);
    }
    let first = s.get_char(0);
    if first == '-' {
        match parse_magnitude(s, 1, 2147483648, IntError::NegOverflow) {
            Ok(m) => {
                let v: i64 = 0 - (m as i64);
                Ok(v as i32)
            },
            Err(e) => Err(e),
        }
    } else if first == '+' {
        match parse_magnitude(s, 1, 2147483647, IntError::PosOverflow) {
            Ok(m) => Ok(m as i32),
            Err(e) => Err(e),
        }
    } else {
        assert(s@.skip(0) =~= s@);
        match parse_magnitude(s, 0, 2147483647, IntError::PosOverflow) {
            Ok(m) => Ok(m as i32),
            Err(e) => Err(e),
        }
    }
}

/// Whether `c` is the lower-case letter `letter` or its upper-case form.
pub open spec fn is_letter(c: char, letter: char) -> bool {
    c == letter || c as int == letter as int - 32
}

/// `s` without a leading `+` or `-`.
pub open spec fn unsigned_part(s: Seq<char>) -> Seq<char> {
    if s.len() > 0 && (s[0] == '+' || s[0] == '-') {
        s.skip(1)
    } else {
        s
    }
}

/// Whether `s` is `inf`, `infinity` or `nan`, in either case of each letter.
pub open spec fn is_special(s: Seq<char>) -> bool {
    ||| (s.len() == 3 && is_letter(s[0], 'i') && is_letter(s[1], 'n') && is_letter(s[2], 'f'))
    ||| (s.len() == 3 && is_letter(s[0], 'n') && is_letter(s[1], 'a') && is_letter(s[2], 'n'))
    ||| (s.len() == 8 && is_letter(s[0], 'i') && is_letter(s[1], 'n') && is_letter(s[2], 'f')
        && is_letter(s[3], 'i') && is_letter(s[4], 'n') && is_letter(s[5], 'i') && is_letter(
        s[6],
        't',
    ) && is_letter(s[7], 'y'))
}

/// Whether `s` is an exponent: `e` or `E`, an optional sign, then at least
/// one digit and nothing else.
pub open spec fn is_exponent(s: Seq<char>) -> bool {
    s.len() >= 1 && is_letter(s[0], 'e') && {
        let t = unsigned_part(s.skip(1));
        t.len() > 0 && digit_run(t) == t.len()
    }
}

/// Whether `s` is digits with an optional point among them, at least one
/// digit in all, and an optional exponent behind.
pub open spec fn is_decimal(s: Seq<char>) -> bool {
    let i = digit_run(s);
    let after = s.skip(i);
    if after.len() > 0 && after[0] == '.' {
        let j = digit_run(after.skip(1));
        let rest = after.skip(1 + j);
        i + j > 0 && (rest.len() == 0 || is_exponent(rest))
    } else {
        i > 0 && (after.len() == 0 || is_exponent(after))
    }
}

/// Whether `s` is written as a real number: an optional sign, then either a
/// decimal literal or one of the words `inf`, `infinity` and `nan`.
pub open spec fn real_syntax(s: Seq<char>) -> bool {
    let b = unsigned_part(s);
    is_special(b) || is_decimal(b)
}

/// The number of digits that stand in `s` from position `from` on.
fn count_digits(s: &str, from: usize) -> (k: usize)
    requires
        from <= s@.len(),
    ensures
        k == digit_run(s@.skip(from as int)),
        from + k <= s@.len(),
{
    let n = s.unicode_len();
    let ghost d = s@.skip(from as int);
    let mut i: usize = from;
    while i < n
        invariant
            n == s@.len(),
            from <= i <= n,
            d == s@.skip(from as int),
            forall|j: int| 0 <= j < i - from ==> is_digit(d[j]),
        decreases n - i,
    {
        let c = s.get_char(i);
        assert(d[i - from] == c);
        if c < '0' || c > '9' {
            proof {
                lemma_digit_run_is(d, i - from);
            }
            return i - from;
        }
        i += 1;
    }
    proof {
        lemma_digit_run_is(d, n - from);
    }
    n - from
}

/// Whether the character of `s` at `at` is `letter` in either case.
fn letter_at(s: &str, at: usize, letter: char) -> (r: bool)
    requires
        at < s@.len(),
        'a' <= letter <= 'z',
    ensures
        r == is_letter(s@[at as int], letter),
{
    let c = s.get_char(at);
    c == letter || (c as u32) + 32 == letter as u32
}

/// The position behind a sign at `from`, or `from` where none stands there.
fn skip_sign(s: &str, from: usize) -> (r: usize)
    requires
        from <= s@.len(),
    ensures
        from <= r <= s@.len(),
        s@.skip(r as int) == unsigned_part(s@.skip(from as int)),
{
    let n = s.unicode_len();
    if from < n {
        let c = s.get_char(from);
        assert(s@.skip(from as int)[0] == c);
        if c == '+' || c == '-' {
            assert(s@.skip(from as int).skip(1) =~= s@.skip(from + 1));
            return from + 1;
        }
    }
    from
}

/// Whether an exponent stands in `s` from `from` to the end.
fn exponent_at(s: &str, from: usize) -> (r: bool)
    requires
        from <= s@.len(),
    ensures
        r == is_exponent(s@.skip(from as int)),
{
    let n = s.unicode_len();
    if from >= n {
        return false;
    }
    assert(s@.skip(from as int)[0] == s@[from as int]);
    if !letter_at(s, from, 'e') {
        return false;
    }
    assert(s@.skip(from as int).skip(1) =~= s@.skip(from + 1));
    let digits = skip_sign(s, from + 1);
    let k = count_digits(s, digits);
    digits < n && digits + k == n
}

/// Whether one of the three words stands in `s` from `from` to the end.
fn special_at(s: &str, from: usize) -> (r: bool)
    requires
        from <= s@.len(),
    ensures
        r == is_special(s@.skip(from as int)),
{
    let n = s.unicode_len();
    let ghost d = s@.skip(from as int);
    let len = n - from;
    assert(d.len() == len);
    if len == 3 {
        assert(d[0] == s@[from + 0] && d[1] == s@[from + 1] && d[2] == s@[from + 2]);
        (letter_at(s, from, 'i') && letter_at(s, from + 1, 'n') && letter_at(s, from + 2, 'f')) || (
        letter_at(s, from, 'n') && letter_at(s, from + 1, 'a') && letter_at(s, from + 2, 'n'))
    } else if len == 8 {
        assert(d[0] == s@[from + 0] && d[1] == s@[from + 1] && d[2] == s@[from + 2] && d[3]
            == s@[from + 3]);
        assert(d[4] == s@[from + 4] && d[5] == s@[from + 5] && d[6] == s@[from + 6] && d[7]
            == s@[from + 7]);
        letter_at(s, from, 'i') && letter_at(s, from + 1, 'n') && letter_at(s, from + 2, 'f')
            && letter_at(s, from + 3, 'i') && letter_at(s, from + 4, 'n') && letter_at(
            s,
            from + 5,
            'i',
        ) && letter_at(s, from + 6, 't') && letter_at(s, from + 7, 'y')
    } else {
        false
    }
}

/// Whether a decimal literal stands in `s` from `from` to the end.
fn decimal_at(s: &str, from: usize) -> (r: bool)
    requires
        from <= s@.len(),
    ensures
        r == is_decimal(s@.skip(from as int)),
{
    let n = s.unicode_len();
    let ghost d = s@.skip(from as int);
    let i = count_digits(s, from);
    let dot = from + i;
    assert(d.skip(i as int) =~= s@.skip(dot as int));
    if dot < n && s.get_char(dot) == '.' {
        assert(s@.skip(dot as int)[0] == s@[dot as int]);
        assert(s@.skip(dot as int).skip(1) =~= s@.skip(dot + 1));
        let j = count_digits(s, dot + 1);
        let rest = dot + 1 + j;
        assert(s@.skip(dot as int).skip(1 + j) =~= s@.skip(rest as int));
        (i > 0 || j > 0) && (rest == n || exponent_at(s, rest))
    } else {
        if dot < n {
            assert(s@.skip(dot as int)[0] == s@[dot as int]);
        }
        i > 0 && (dot == n || exponent_at(s, dot))
    }
}

/// Whether `s` is written as a real number.
pub fn is_real(s: &str) -> (r: bool)
    ensures
        r == real_syntax(s@),
{
    let body = skip_sign(s, 0);
    assert(s@.skip(0) =~= s@);
    special_at(s, body) || decimal_at(s, body)
}

} // verus!
