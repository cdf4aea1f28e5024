//! Numbers as they are written on the wire.
//!
//! A JSON number travels as text. Integers are written as decimal numerals,
//! and this module says which text is the numeral of which integer
//! ([`decimal`], [`integer_of`]) and reads numerals back into machine
//! integers. Numbers with a fraction or an exponent are kept as text; the
//! module says which text is such a number ([`is_real_literal`]).

use vstd::prelude::*;

verus! {

/// The bytes that spell a number in ASCII.
const DIGIT_0: u8 = 48;

const DIGIT_9: u8 = 57;

const MINUS: u8 = 45;

const PLUS: u8 = 43;

const POINT: u8 = 46;

const SMALL_E: u8 = 101;

const CAPITAL_E: u8 = 69;

/// Whether `c` is one of the ten decimal digits.
pub open spec fn is_digit(c: char) -> bool {
    '0' <= c && c <= '9'
}

/// The digit that stands for `d`, for `d` from 0 to 9.
pub open spec fn digit_char(d: int) -> char
    recommends
        0 <= d <= 9,
{
    (d + 48) as char
}

/// The number that the digit `c` stands for.
pub open spec fn digit_value(c: char) -> int
    recommends
        is_digit(c),
{
    c as int - 48
}

/// The decimal numeral of a natural number: no leading zero, and "0" for zero.
pub open spec fn digits(n: nat) -> Seq<char>
    decreases n,
{
    if n < 10 {
        seq![digit_char(n as int)]
    } else {
        digits(n / 10).push(digit_char((n % 10) as int))
    }
}

/// The decimal numeral of an integer: the digits of its magnitude, after a
/// minus sign where it is negative.
pub open spec fn decimal(n: int) -> Seq<char> {
    if n < 0 {
        seq!['-'] + digits((-n) as nat)
    } else {
        digits(n as nat)
    }
}

/// Whether `s` holds digits only.
pub open spec fn all_digits(s: Seq<char>) -> bool {
    forall|i: int| 0 <= i < s.len() ==> is_digit(#[trigger] s[i])
}

/// The number that a string of digits denotes, most significant digit first.
pub open spec fn digits_value(s: Seq<char>) -> nat
    decreases s.len(),
{
    if s.len() == 0 {
        0
    } else {
        (digits_value(s.drop_last()) * 10 + digit_value(s.last())) as nat
    }
}

/// Whether `s` is a numeral as [`digits`] writes it: one digit or more, and a
/// leading zero only in "0" itself.
pub open spec fn is_numeral(s: Seq<char>) -> bool {
    &&& s.len() >= 1
    &&& all_digits(s)
    &&& (s[0] == '0' ==> s.len() == 1)
}

/// The integer whose decimal numeral is `s`, where `s` is one.
///
/// Only the numeral that [`decimal`] writes is accepted: "-0", "+1" and "007"
/// denote nothing.
pub open spec fn integer_of(s: Seq<char>) -> Option<int> {
    if is_numeral(s) {
        Some(digits_value(s) as int)
    } else if s.len() >= 2 && s[0] == '-' && s[1] != '0' && is_numeral(s.skip(1)) {
        Some(-(digits_value(s.skip(1)) as int))
    } else {
        None
    }
}

/// The signed 64-bit integer whose decimal numeral is `s`, where there is one.
pub open spec fn i64_of(s: Seq<char>) -> Option<i64> {
    match integer_of(s) {
        Some(n) => if i64::MIN <= n <= i64::MAX {
            Some(n as i64)
        } else {
            None
        },
        None => None,
    }
}

/// The unsigned 64-bit integer whose decimal numeral is `s`, where there is
/// one.
pub open spec fn u64_of(s: Seq<char>) -> Option<u64> {
    match integer_of(s) {
        Some(n) => if 0 <= n <= u64::MAX {
            Some(n as u64)
        } else {
            None
        },
        None => None,
    }
}

/// The first position at or after `from` at which `s` holds no digit.
pub open spec fn digits_end(s: Seq<char>, from: int) -> int
    decreases s.len() - from,
{
    if 0 <= from < s.len() && is_digit(s[from]) {
        digits_end(s, from + 1)
    } else {
        from
    }
}

/// Whether `c` opens the exponent of a number.
pub open spec fn is_exponent_mark(c: char) -> bool {
    c == 'e' || c == 'E'
}

/// Whether `c` is a sign.
pub open spec fn is_sign(c: char) -> bool {
    c == '+' || c == '-'
}

/// Whether `s` is a number as JSON writes one: an optional minus sign, an
/// integer part without a leading zero, then optionally a point with digits
/// after it, then optionally an exponent mark, an optional sign and digits.
pub open spec fn is_real_literal(s: Seq<char>) -> bool {
    let int_start = if s.len() > 0 && s[0] == '-' {
        1int
    } else {
        0int
    };
    let int_end = digits_end(s, int_start);
    let has_fraction = int_end < s.len() && s[int_end] == '.';
    let fraction_end = if has_fraction {
        digits_end(s, int_end + 1)
    } else {
        int_end
    };
    let has_exponent = fraction_end < s.len() && is_exponent_mark(s[fraction_end]);
    let exp_start = if has_exponent && fraction_end + 1 < s.len() && is_sign(s[fraction_end + 1]) {
        fraction_end + 2
    } else {
        fraction_end + 1
    };
    let end = if has_exponent {
        digits_end(s, exp_start)
    } else {
        fraction_end
    };
    &&& int_end > int_start
    &&& (s[int_start] == '0' ==> int_end == int_start + 1)
    &&& (has_fraction ==> fraction_end > int_end + 1)
    &&& (has_exponent ==> end > exp_start)
    &&& end == s.len()
}

/// The characters that a string of ASCII bytes spells.
pub open spec fn ascii_chars(bytes: Seq<u8>) -> Seq<char> {
    Seq::new(bytes.len(), |i: int| bytes[i] as char)
}

proof fn lemma_digits_shape(n: nat)
    ensures
        digits(n).len() >= 1,
        all_digits(digits(n)),
        n > 0 ==> digits(n)[0] != '0',
        n == 0 ==> digits(n) == seq!['0'],
        is_numeral(digits(n)),
        digits_value(digits(n)) == n,
    decreases n,
{
    if n < 10 {
        let s = digits(n);
        assert(s.len() == 1);
        assert(s[0] == digit_char(n as int));
        assert(s.drop_last().len() == 0);
        assert(digits_value(s.drop_last()) == 0);
        assert(digits_value(s) == n);
        assert(s =~= seq![digit_char(n as int)]);
    } else {
        lemma_digits_shape(n / 10);
        let t = digits(n / 10);
        let c = digit_char((n % 10) as int);
        let s = t.push(c);
        assert(s == digits(n));
        assert(s.drop_last() =~= t);
        assert(s.last() == c);
        assert(s[0] == t[0]);
        assert(digits_value(s) == digits_value(t) * 10 + digit_value(c));
        assert forall|i: int| 0 <= i < s.len() implies is_digit(#[trigger] s[i]) by {
            if i < t.len() {
                assert(s[i] == t[i]);
            }
        }
    }
}

proof fn lemma_leading_digit_value(s: Seq<char>)
    requires
        s.len() >= 1,
        all_digits(s),
        s[0] != '0',
    ensures
        digits_value(s) >= 1,
    decreases s.len(),
{
    let t = s.drop_last();
    if t.len() == 0 {
        assert(digits_value(t) == 0);
        assert(s.last() == s[0]);
    } else {
        assert(t[0] == s[0]);
        assert forall|i: int| 0 <= i < t.len() implies is_digit(#[trigger] t[i]) by {
            assert(t[i] == s[i]);
        }
        lemma_leading_digit_value(t);
    }
}

proof fn lemma_numeral_is_digits(s: Seq<char>)
    requires
        is_numeral(s),
    ensures
        digits(digits_value(s)) == s,
    decreases s.len(),
{
    let t = s.drop_last();
    let c = s.last();
    assert(is_digit(c));
    if t.len() == 0 {
        assert(digits_value(t) == 0);
        assert(digits_value(s) == digit_value(c));
        assert(digits(digits_value(s)) =~= s);
    } else {
        assert(t[0] == s[0]);
        assert forall|i: int| 0 <= i < t.len() implies is_digit(#[trigger] t[i]) by {
            assert(t[i] == s[i]);
        }
        lemma_leading_digit_value(t);
        lemma_numeral_is_digits(t);
        let v = digits_value(s);
        assert(v == digits_value(t) * 10 + digit_value(c));
        assert(v >= 10);
        assert(v / 10 == digits_value(t));
        assert(v % 10 == digit_value(c));
        assert(digit_char((v % 10) as int) == c);
        assert(digits(v) == digits(v / 10).push(digit_char((v % 10) as int)));
        assert(t.push(c) =~= s);
    }
}

/// Reading the numeral of an integer gives that integer back.
pub proof fn lemma_integer_of_decimal(n: int)
    ensures
        integer_of(decimal(n)) == Some(n),
{
    if n < 0 {
        let m = (-n) as nat;
        lemma_digits_shape(m);
        let s = decimal(n);
        assert(s.skip(1) =~= digits(m));
        assert(s[0] == '-');
        assert(s[1] == digits(m)[0]);
        assert(!is_digit(s[0]));
        assert(!is_numeral(s));
    } else {
        lemma_digits_shape(n as nat);
    }
}

/// Text that reads as an integer is the numeral of that integer: every
/// integer has one numeral only.
pub proof fn lemma_decimal_of_integer(s: Seq<char>)
    requires
        integer_of(s) is Some,
    ensures
        decimal(integer_of(s).unwrap()) == s,
{
    if is_numeral(s) {
        lemma_numeral_is_digits(s);
    } else {
        let t = s.skip(1);
        assert(t[0] == s[1]);
        lemma_numeral_is_digits(t);
        lemma_leading_digit_value(t);
        assert(seq!['-'] + t =~= s);
    }
}

/// Every numeral of an integer is a number as JSON writes one.
pub proof fn lemma_decimal_is_real_literal(n: int)
    ensures
        is_real_literal(decimal(n)),
{
    let s = decimal(n);
    let start = if n < 0 {
        1int
    } else {
        0int
    };
    let m = (if n < 0 {
        -n
    } else {
        n
    }) as nat;
    lemma_digits_shape(m);
    assert(s.skip(start) =~= digits(m));
    assert forall|i: int| start <= i < s.len() implies is_digit(#[trigger] s[i]) by {
        assert(s[i] == digits(m)[i - start]);
    }
    assert(s[start] == digits(m)[0]);
    if n >= 0 {
        assert(is_digit(s[0]));
    }
    lemma_digits_end_of_run(s, start, s.len() as int);
}

/// Where `s` holds digits from `from` up to `to`, and none at `to`, the run
/// of digits that starts at `from` ends at `to`.
proof fn lemma_digits_end_of_run(s: Seq<char>, from: int, to: int)
    requires
        0 <= from <= to <= s.len(),
        forall|i: int| from <= i < to ==> is_digit(#[trigger] s[i]),
        to < s.len() ==> !is_digit(s[to]),
    ensures
        digits_end(s, from) == to,
    decreases to - from,
{
    if from < to {
        assert(is_digit(s[from]));
        lemma_digits_end_of_run(s, from + 1, to);
    }
}

proof fn lemma_digits_value_grows(s: Seq<char>, k: int)
    requires
        all_digits(s),
        0 <= k <= s.len(),
    ensures
        digits_value(s.take(k)) <= digits_value(s),
    decreases s.len() - k,
{
    if k < s.len() {
        lemma_digits_value_grows(s, k + 1);
        let t = s.take(k + 1);
        assert(t.drop_last() =~= s.take(k));
        assert(t.last() == s[k]);
        assert(is_digit(s[k]));
        assert(digits_value(t) == digits_value(s.take(k)) * 10 + digit_value(s[k]));
    } else {
        assert(s.take(k) =~= s);
    }
}

/// The end of the run of digits of `bytes` that starts at `from`.
fn scan_digits(bytes: &[u8], from: usize) -> (end: usize)
    requires
        from <= bytes@.len(),
    ensures
        from <= end <= bytes@.len(),
        end == digits_end(ascii_chars(bytes@), from as int),
{
    let ghost s = ascii_chars(bytes@);
    let mut i: usize = from;
    while i < bytes.len() && DIGIT_0 <= bytes[i] && bytes[i] <= DIGIT_9
        invariant
            from <= i <= bytes@.len(),
            s == ascii_chars(bytes@),
            digits_end(s, from as int) == digits_end(s, i as int),
        decreases bytes@.len() - i,
    {
        assert(s[i as int] == bytes@[i as int] as char);
        assert(is_digit(s[i as int]));
        i = i + 1;
    }
    proof {
        if i < bytes@.len() {
            assert(s[i as int] == bytes@[i as int] as char);
            assert(!is_digit(s[i as int]));
        }
    }
    i
}

/// Reads the bytes of `bytes` from `from` on as a numeral.
fn read_numeral(bytes: &[u8], from: usize) -> (value: Option<u64>)
    requires
        from <= bytes@.len(),
    ensures
        value == (if is_numeral(ascii_chars(bytes@).skip(from as int)) && digits_value(
            ascii_chars(bytes@).skip(from as int),
        ) <= u64::MAX {
            Some(digits_value(ascii_chars(bytes@).skip(from as int)) as u64)
        } else {
            None
        }),
{
    let ghost s = ascii_chars(bytes@).skip(from as int);
    let n: usize = bytes.len();
    if from == n {
        return None;
    }
    if bytes[from] == DIGIT_0 && n - from > 1 {
        assert(s[0] == '0');
        return None;
    }
    let mut acc: u64 = 0;
    let mut i: usize = from;
    assert(s.take(0).len() == 0);
    while i < n
        invariant
            from <= i <= n,
            n == bytes@.len(),
            s == ascii_chars(bytes@).skip(from as int),
            s.len() == n - from,
            all_digits(s.take(i - from)),
            acc == digits_value(s.take(i - from)),
        decreases n - i,
    {
        let b: u8 = bytes[i];
        let ghost k = i - from;
        assert(s[k] == b as char);
        if b < DIGIT_0 || b > DIGIT_9 {
            assert(!is_digit(s[k]));
            assert(!all_digits(s));
            return None;
        }
        let d: u64 = (b - DIGIT_0) as u64;
        proof {
            let t = s.take(k + 1);
            assert(t.drop_last() =~= s.take(k));
            assert(t.last() == s[k]);
            assert(digits_value(t) == digits_value(s.take(k)) * 10 + digit_value(s[k]));
            assert forall|j: int| 0 <= j < t.len() implies is_digit(#[trigger] t[j]) by {
                if j < k {
                    assert(s.take(k)[j] == t[j]);
                }
            }
        }
        if acc > (u64::MAX - d) / 10 {
            proof {
                if all_digits(s) {
                    lemma_digits_value_grows(s, k + 1);
                }
            }
            return None;
        }
        acc = acc * 10 + d;
        i = i + 1;
    }
    proof {
        assert(s.take(n - from) =~= s);
        if s[0] == '0' {
            assert(bytes@[from as int] as char == s[0]);
        }
    }
    Some(acc)
}

/// Whether `text` holds ASCII only; if so, its bytes spell its characters.
fn ascii_bytes(text: &str) -> (bytes: Option<&[u8]>)
    ensures
        match bytes {
            Some(b) => ascii_chars(b@) == text@,
            None => !vstd::utf8::is_ascii_chars(text@),
        },
{
    if text.is_ascii() {
        let b = text.as_bytes();
        proof {
            vstd::string::is_ascii_spec_bytes(text);
            assert(ascii_chars(b@) =~= text@);
        }
        Some(b)
    } else {
        None
    }
}

/// Reads `text` as the decimal numeral of a signed 64-bit integer.
///
/// The result is the integer that `text` is the numeral of; `None` where
/// `text` is no numeral, or that of an integer outside the type's range.
pub fn parse_i64(text: &str) -> (value: Option<i64>)
    ensures
        value == i64_of(text@),
{
    let bytes = match ascii_bytes(text) {
        Some(b) => b,
        None => {
            proof {
                lemma_not_ascii_not_integer(text@);
            }
            return None;
        },
    };
    let ghost s = text@;
    if bytes.len() >= 1 && bytes[0] == MINUS {
        assert(s[0] == '-');
        assert(!is_numeral(s));
        if bytes.len() < 2 || bytes[1] == DIGIT_0 {
            return None;
        }
        assert(s[1] == bytes@[1] as char);
        match read_numeral(bytes, 1) {
            Some(m) => {
                if m <= i64::MAX as u64 {
                    Some(-(m as i64))
                } else if m == i64::MAX as u64 + 1 {
                    Some(i64::MIN)
                } else {
                    None
                }
            },
            None => None,
        }
    } else {
        proof {
            assert(s.skip(0) =~= s);
            if s.len() >= 1 {
                assert(s[0] == bytes@[0] as char);
            }
        }
        match read_numeral(bytes, 0) {
            Some(m) => {
                if m <= i64::MAX as u64 {
                    Some(m as i64)
                } else {
                    None
                }
            },
            None => None,
        }
    }
}

/// Reads `text` as the decimal numeral of an unsigned 64-bit integer.
///
/// The result is the integer that `text` is the numeral of; `None` where
/// `text` is no numeral, or that of an integer outside the type's range.
pub fn parse_u64(text: &str) -> (value: Option<u64>)
    ensures
        value == u64_of(text@),
{
    let bytes = match ascii_bytes(text) {
        Some(b) => b,
        None => {
            proof {
                lemma_not_ascii_not_integer(text@);
            }
            return None;
        },
    };
    let ghost s = text@;
    proof {
        assert(s.skip(0) =~= s);
        if s.len() >= 2 && s[0] == '-' && s[1] != '0' && is_numeral(s.skip(1)) {
            lemma_leading_digit_value(s.skip(1));
        }
    }
    read_numeral(bytes, 0)
}

proof fn lemma_not_ascii_not_integer(s: Seq<char>)
    requires
        !vstd::utf8::is_ascii_chars(s),
    ensures
        integer_of(s) is None,
        !is_real_literal(s),
{
    let i = choose|i: int| 0 <= i < s.len() && !('\0' <= #[trigger] s[i] <= '\u{7f}');
    assert(!is_digit(s[i]));
    if i >= 1 {
        assert(s.skip(1)[i - 1] == s[i]);
    }
    lemma_real_literal_chars(s, i);
}

/// Whether `c` may occur in a number as JSON writes one.
spec fn is_number_char(c: char) -> bool {
    is_digit(c) || is_sign(c) || is_exponent_mark(c) || c == '.'
}

proof fn lemma_digits_end_bounds(s: Seq<char>, from: int)
    requires
        0 <= from <= s.len(),
    ensures
        from <= digits_end(s, from) <= s.len(),
        forall|i: int| from <= i < digits_end(s, from) ==> is_digit(#[trigger] s[i]),
    decreases s.len() - from,
{
    if from < s.len() && is_digit(s[from]) {
        lemma_digits_end_bounds(s, from + 1);
    }
}

proof fn lemma_real_literal_chars(s: Seq<char>, i: int)
    requires
        0 <= i < s.len(),
        !is_number_char(s[i]),
    ensures
        !is_real_literal(s),
{
    if is_real_literal(s) {
        let int_start = if s.len() > 0 && s[0] == '-' {
            1int
        } else {
            0int
        };
        lemma_digits_end_bounds(s, int_start);
        let int_end = digits_end(s, int_start);
        let has_fraction = int_end < s.len() && s[int_end] == '.';
        if has_fraction {
            lemma_digits_end_bounds(s, int_end + 1);
        }
        let fraction_end = if has_fraction {
            digits_end(s, int_end + 1)
        } else {
            int_end
        };
        let has_exponent = fraction_end < s.len() && is_exponent_mark(s[fraction_end]);
        let exp_start = if has_exponent && fraction_end + 1 < s.len() && is_sign(
            s[fraction_end + 1],
        ) {
            fraction_end + 2
        } else {
            fraction_end + 1
        };
        if has_exponent {
            lemma_digits_end_bounds(s, exp_start);
        }
        assert(is_number_char(s[i]));
    }
}

/// Whether `text` is a number as JSON writes one.
pub fn check_real_literal(text: &str) -> (ok: bool)
    ensures
        ok == is_real_literal(text@),
{
    let bytes = match ascii_bytes(text) {
        Some(b) => b,
        None => {
            proof {
                lemma_not_ascii_not_integer(text@);
            }
            return false;
        },
    };
    let ghost s = text@;
    let n: usize = bytes.len();
    let int_start: usize = if n > 0 && bytes[0] == MINUS {
        1
    } else {
        0
    };
    proof {
        if n > 0 {
            assert(s[0] == bytes@[0] as char);
        }
    }
    let int_end: usize = scan_digits(bytes, int_start);
    if int_end == int_start {
        return false;
    }
    assert(s[int_start as int] == bytes@[int_start as int] as char);
    if bytes[int_start] == DIGIT_0 && int_end != int_start + 1 {
        return false;
    }
    let has_fraction: bool = int_end < n && bytes[int_end] == POINT;
    proof {
        if int_end < n {
            assert(s[int_end as int] == bytes@[int_end as int] as char);
        }
    }
    let fraction_end: usize = if has_fraction {
        scan_digits(bytes, int_end + 1)
    } else {
        int_end
    };
    if has_fraction && fraction_end == int_end + 1 {
        return false;
    }
    let has_exponent: bool = fraction_end < n && (bytes[fraction_end] == SMALL_E
        || bytes[fraction_end] == CAPITAL_E);
    proof {
        if fraction_end < n {
            assert(s[fraction_end as int] == bytes@[fraction_end as int] as char);
        }
    }
    if !has_exponent {
        return fraction_end == n;
    }
    let signed: bool = fraction_end + 1 < n && (bytes[fraction_end + 1] == PLUS
        || bytes[fraction_end + 1] == MINUS);
    proof {
        if fraction_end + 1 < n {
            assert(s[fraction_end + 1] == bytes@[fraction_end + 1] as char);
        }
    }
    let exp_start: usize = if signed {
        fraction_end + 2
    } else {
        fraction_end + 1
    };
    let end: usize = scan_digits(bytes, exp_start);
    end > exp_start && end == n
}

} // verus!
