//! Decimal amount strings.
//!
//! Balances and payment amounts travel as decimal strings and are never
//! parsed to floating point. This module gives the grammar of such strings,
//! their exact integer value in stroops (1 unit = 10_000_000 stroops), a
//! lenient parser that yields zero on malformed input, and the signed-integer
//! parser used for ledger sequence numbers.

use vstd::prelude::*;

verus! {

/// An ASCII decimal digit.
pub open spec fn is_dec_digit(c: char) -> bool {
    '0' <= c && c <= '9'
}

/// Numeric value of a decimal digit character.
pub open spec fn digit_val(c: char) -> int {
    c as int - 48
}

/// Every character of `s` is a decimal digit.
pub open spec fn all_dec_digits(s: Seq<char>) -> bool {
    forall|i: int| 0 <= i < s.len() ==> is_dec_digit(#[trigger] s[i])
}

/// Value of a digit string read most-significant first.
pub open spec fn dec_seq_value(s: Seq<char>) -> int
    decreases s.len(),
{
    if s.len() == 0 {
        0
    } else {
        dec_seq_value(s.drop_last()) * 10 + digit_val(s.last())
    }
}

/// Index of the first `'.'` in `s`, or -1 if there is none.
pub open spec fn first_dot(s: Seq<char>) -> int
    decreases s.len(),
{
    if s.len() == 0 {
        -1
    } else if s[0] == '.' {
        0
    } else if first_dot(s.drop_first()) < 0 {
        -1
    } else {
        first_dot(s.drop_first()) + 1
    }
}

/// The string without its optional leading minus sign.
pub open spec fn unsigned_body(s: Seq<char>) -> Seq<char> {
    if s.len() > 0 && s[0] == '-' {
        s.drop_first()
    } else {
        s
    }
}

/// Whether the string carries a leading minus sign.
pub open spec fn is_negative_str(s: Seq<char>) -> bool {
    s.len() > 0 && s[0] == '-'
}

/// Integer part of an unsigned decimal body.
pub open spec fn uint_part(u: Seq<char>) -> Seq<char> {
    if first_dot(u) < 0 {
        u
    } else {
        u.take(first_dot(u))
    }
}

/// Fractional part of an unsigned decimal body (empty when there is no dot).
pub open spec fn ufrac_part(u: Seq<char>) -> Seq<char> {
    if first_dot(u) < 0 {
        Seq::empty()
    } else {
        u.skip(first_dot(u) + 1)
    }
}

/// Grammar of an unsigned decimal: a non-empty digit string, optionally
/// followed by a dot and a non-empty digit string.
pub open spec fn valid_unsigned_decimal(u: Seq<char>) -> bool {
    &&& uint_part(u).len() > 0
    &&& all_dec_digits(uint_part(u))
    &&& (first_dot(u) >= 0 ==> ufrac_part(u).len() > 0 && all_dec_digits(ufrac_part(u)))
}

/// Grammar of an amount string: optional minus sign, then an unsigned decimal.
pub open spec fn valid_amount_str(s: Seq<char>) -> bool {
    valid_unsigned_decimal(unsigned_body(s))
}

/// Some digit of `s` is non-zero.
pub open spec fn has_nonzero_digit(s: Seq<char>) -> bool {
    exists|i: int| 0 <= i < s.len() && is_dec_digit(#[trigger] s[i]) && s[i] != '0'
}

/// A well-formed, unsigned, non-zero amount.
pub open spec fn is_positive_amount(s: Seq<char>) -> bool {
    &&& valid_amount_str(s)
    &&& !is_negative_str(s)
    &&& has_nonzero_digit(s)
}

/// 10^n.
pub open spec fn pow10(n: nat) -> int
    decreases n,
{
    if n == 0 {
        1
    } else {
        10 * pow10((n - 1) as nat)
    }
}

/// Exact value in stroops of a valid unsigned amount whose fractional part
/// has at most 7 digits.
pub open spec fn stroops_of_body(u: Seq<char>) -> int {
    dec_seq_value(uint_part(u)) * 10_000_000 + dec_seq_value(ufrac_part(u)) * pow10(
        (7 - ufrac_part(u).len()) as nat,
    )
}

/// An amount string that can be carried as a signed 64-bit stroop count:
/// well-formed, unsigned, at most 7 fractional digits, value in range.
pub open spec fn amount_representable(s: Seq<char>) -> bool {
    &&& valid_amount_str(s)
    &&& !is_negative_str(s)
    &&& ufrac_part(s).len() <= 7
    &&& stroops_of_body(s) <= i64::MAX
}

/// Grammar of a signed 64-bit integer string: optional minus sign, non-empty
/// digit string, value within the `i64` range.
pub open spec fn valid_i64_str(s: Seq<char>) -> bool {
    &&& unsigned_body(s).len() > 0
    &&& all_dec_digits(unsigned_body(s))
    &&& i64::MIN <= i64_str_value(s) <= i64::MAX
}

/// Signed value of an integer string.
pub open spec fn i64_str_value(s: Seq<char>) -> int {
    if is_negative_str(s) {
        -dec_seq_value(unsigned_body(s))
    } else {
        dec_seq_value(unsigned_body(s))
    }
}

/// Value of a sequence string, with the documented lenient fallback:
/// malformed input counts as zero.
pub open spec fn i64_str_value_or_zero(s: Seq<char>) -> int {
    if valid_i64_str(s) {
        i64_str_value(s)
    } else {
        0
    }
}

/// A digit string has a non-negative value.
pub proof fn lemma_dec_value_nonneg(s: Seq<char>)
    requires
        all_dec_digits(s),
    ensures
        dec_seq_value(s) >= 0,
    decreases s.len(),
{
    if s.len() > 0 {
        assert(all_dec_digits(s.drop_last())) by {
            assert(forall|i: int|
                0 <= i < s.drop_last().len() ==> s.drop_last()[i] == #[trigger] s[i]);
        }
        lemma_dec_value_nonneg(s.drop_last());
    }
}

/// Lengthening a digit string cannot decrease its value.
pub proof fn lemma_dec_value_prefix_le(s: Seq<char>, i: int)
    requires
        all_dec_digits(s),
        0 <= i <= s.len(),
    ensures
        dec_seq_value(s.take(i)) <= dec_seq_value(s),
    decreases s.len() - i,
{
    if i < s.len() {
        let t = s.take(i + 1);
        assert(t.drop_last() =~= s.take(i));
        assert(all_dec_digits(t)) by {
            assert(forall|j: int| 0 <= j < t.len() ==> t[j] == #[trigger] s[j]);
        }
        assert(all_dec_digits(s.take(i))) by {
            assert(forall|j: int|
                0 <= j < s.take(i).len() ==> s.take(i)[j] == #[trigger] s[j]);
        }
        lemma_dec_value_nonneg(s.take(i));
        assert(is_dec_digit(t.last()) && digit_val(t.last()) >= 0) by {
            assert(t.last() == s[i]);
        }
        assert(dec_seq_value(s.take(i)) <= dec_seq_value(t));
        lemma_dec_value_prefix_le(s, i + 1);
        assert(s.take(i + 1) == t);
    } else {
        assert(s.take(i) =~= s);
    }
}

/// What the position returned by `first_dot` means.
pub proof fn lemma_first_dot_props(s: Seq<char>)
    ensures
        first_dot(s) == -1 ==> forall|i: int| 0 <= i < s.len() ==> s[i] != '.',
        first_dot(s) >= 0 ==> {
            &&& first_dot(s) < s.len()
            &&& s[first_dot(s)] == '.'
            &&& forall|i: int| 0 <= i < first_dot(s) ==> s[i] != '.'
        },
    decreases s.len(),
{
    if s.len() > 0 && s[0] != '.' {
        lemma_first_dot_props(s.drop_first());
        if first_dot(s) == -1 {
            assert forall|i: int| 0 <= i < s.len() implies s[i] != '.' by {
                if i >= 1 {
                    assert(s.drop_first()[i - 1] != '.');
                    assert(s[i] == s.drop_first()[i - 1]);
                }
            }
        } else {
            let d = first_dot(s);
            assert(s[d] == s.drop_first()[d - 1]);
            assert forall|i: int| 0 <= i < d implies s[i] != '.' by {
                if i >= 1 {
                    assert(s.drop_first()[i - 1] != '.');
                    assert(s[i] == s.drop_first()[i - 1]);
                }
            }
        }
    }
}

/// `first_dot` is determined by the earliest dot position.
pub proof fn lemma_first_dot_is(s: Seq<char>, d: int)
    requires
        0 <= d < s.len(),
        s[d] == '.',
        forall|i: int| 0 <= i < d ==> s[i] != '.',
    ensures
        first_dot(s) == d,
    decreases s.len(),
{
    if d > 0 {
        assert(forall|i: int|
            1 <= i < s.len() ==> s[i] == #[trigger] s.drop_first()[i - 1]);
        lemma_first_dot_is(s.drop_first(), d - 1);
    }
}

/// A string with no dot at all has `first_dot` equal to -1.
pub proof fn lemma_first_dot_none(s: Seq<char>)
    requires
        forall|i: int| 0 <= i < s.len() ==> s[i] != '.',
    ensures
        first_dot(s) == -1,
    decreases s.len(),
{
    if s.len() > 0 {
        assert(forall|i: int|
            1 <= i < s.len() ==> s[i] == #[trigger] s.drop_first()[i - 1]);
        lemma_first_dot_none(s.drop_first());
    }
}

/// A digit string of length `n` has a value below 10^n.
pub proof fn lemma_dec_value_upper(s: Seq<char>)
    requires
        all_dec_digits(s),
    ensures
        dec_seq_value(s) < pow10(s.len()),
    decreases s.len(),
{
    if s.len() > 0 {
        assert(all_dec_digits(s.drop_last())) by {
            assert(forall|i: int|
                0 <= i < s.drop_last().len() ==> s.drop_last()[i] == #[trigger] s[i]);
        }
        lemma_dec_value_upper(s.drop_last());
        assert(digit_val(s.last()) <= 9);
        assert(pow10(s.len()) == 10 * pow10((s.len() - 1) as nat));
    }
}

/// Every character in `s` within `[from, to)` is a decimal digit.
fn scan_digits(s: &str, from: usize, to: usize) -> (r: bool)
    requires
        from <= to <= s@.len(),
    ensures
        r == all_dec_digits(s@.subrange(from as int, to as int)),
{
    let ghost sub = s@.subrange(from as int, to as int);
    let mut i: usize = from;
    while i < to
        invariant
            from <= i <= to <= s@.len(),
            sub == s@.subrange(from as int, to as int),
            forall|j: int| from <= j < i ==> is_dec_digit(#[trigger] s@[j]),
        decreases to - i,
    {
        let c = s.get_char(i);
        let v = c as u32;
        if !(48 <= v && v <= 57) {
            proof {
                assert(sub[i - from] == s@[i as int]);
                assert(!is_dec_digit(sub[i - from]));
            }
            return false;
        }
        i = i + 1;
    }
    proof {
        assert forall|k: int| 0 <= k < sub.len() implies is_dec_digit(#[trigger] sub[k]) by {
            assert(sub[k] == s@[from + k]);
        }
    }
    true
}

/// Position of the first `'.'` in `s`, if any.
fn find_dot(s: &str) -> (r: Option<usize>)
    ensures
        r is Some ==> {
            &&& (r->0 as int) < s@.len()
            &&& s@[r->0 as int] == '.'
            &&& forall|i: int| 0 <= i < r->0 as int ==> s@[i] != '.'
        },
        r is None ==> forall|i: int| 0 <= i < s@.len() ==> s@[i] != '.',
{
    let n = s.unicode_len();
    let mut i: usize = 0;
    while i < n
        invariant
            0 <= i <= n,
            n == s@.len(),
            forall|j: int| 0 <= j < i ==> s@[j] != '.',
        decreases n - i,
    {
        let c = s.get_char(i);
        if c == '.' {
            return Some(i);
        }
        i = i + 1;
    }
    None
}

/// Parses the digit string in `[from, to)` into a `u64`, reporting failure
/// on a non-digit character or a value above `u64::MAX`.
fn parse_dec_u64(s: &str, from: usize, to: usize) -> (r: Option<u64>)
    requires
        from <= to <= s@.len(),
    ensures
        r is Some <==> all_dec_digits(s@.subrange(from as int, to as int))
            && dec_seq_value(s@.subrange(from as int, to as int)) <= u64::MAX,
        r is Some ==> r->0 as int == dec_seq_value(s@.subrange(from as int, to as int)),
{
    let ghost sub = s@.subrange(from as int, to as int);
    let mut acc: u64 = 0;
    let mut i: usize = from;
    while i < to
        invariant
            from <= i <= to <= s@.len(),
            sub == s@.subrange(from as int, to as int),
            all_dec_digits(sub.take(i - from)),
            acc as int == dec_seq_value(sub.take(i - from)),
        decreases to - i,
    {
        let ghost k = i - from;
        let c = s.get_char(i);
        let v = c as u32;
        proof {
            assert(sub[k] == s@[i as int]);
        }
        if !(48 <= v && v <= 57) {
            proof {
                assert(!is_dec_digit(sub[k]));
            }
            return None;
        }
        let d = (v - 48) as u64;
        proof {
            assert(sub.take(k + 1).drop_last() =~= sub.take(k));
            assert(sub.take(k + 1).last() == sub[k]);
            assert(d as int == digit_val(sub[k]));
            vstd::arithmetic::div_mod::lemma_fundamental_div_mod(
                (u64::MAX - d) as int,
                10,
            );
        }
        if acc > (u64::MAX - d) / 10 {
            proof {
                assert(dec_seq_value(sub.take(k + 1)) > u64::MAX);
                assert(all_dec_digits(sub.take(k + 1))) by {
                    assert(forall|j: int|
                        0 <= j < k + 1 ==> sub.take(k + 1)[j] == #[trigger] sub[j]);
                }
                if all_dec_digits(sub) && dec_seq_value(sub) <= u64::MAX {
                    lemma_dec_value_prefix_le(sub, k + 1);
                }
            }
            return None;
        }
        acc = acc * 10 + d;
        proof {
            assert(all_dec_digits(sub.take(k + 1))) by {
                assert(forall|j: int|
                    0 <= j < k + 1 ==> sub.take(k + 1)[j] == #[trigger] sub[j]);
            }
        }
        i = i + 1;
    }
    proof {
        assert(sub.take(to - from) =~= sub);
    }
    Some(acc)
}

/// Parses a ledger sequence string into an `i64`; malformed or out-of-range
/// input yields zero (the documented lenient policy).
pub fn parse_i64_or_zero(s: &str) -> (r: i64)
    ensures
        r as int == i64_str_value_or_zero(s@),
{
    let n = s.unicode_len();
    if n == 0 {
        return 0;
    }
    let neg = s.get_char(0) == '-';
    let start: usize = if neg { 1 } else { 0 };
    if start >= n {
        return 0;
    }
    let ghost body = unsigned_body(s@);
    proof {
        assert(body =~= s@.subrange(start as int, n as int));
    }
    match parse_dec_u64(s, start, n) {
        Option::None => {
            proof {
                if valid_i64_str(s@) {
                    lemma_dec_value_nonneg(body);
                }
            }
            0
        },
        Option::Some(v) => {
            if neg {
                if v <= 9223372036854775807u64 {
                    -(v as i64)
                } else if v == 9223372036854775808u64 {
                    i64::MIN
                } else {
                    0
                }
            } else {
                if v <= 9223372036854775807u64 {
                    v as i64
                } else {
                    0
                }
            }
        },
    }
}

/// Whether `s` is a well-formed, unsigned, non-zero decimal amount.
pub fn is_positive_decimal(s: &str) -> (r: bool)
    ensures
        r == is_positive_amount(s@),
{
    let n = s.unicode_len();
    if n == 0 {
        return false;
    }
    if s.get_char(0) == '-' {
        return false;
    }
    let ghost body = unsigned_body(s@);
    proof {
        assert(body =~= s@);
    }
    let dot = find_dot(s);
    let structure_ok: bool = match dot {
        Option::None => {
            proof {
                lemma_first_dot_none(s@);
                assert(uint_part(body) =~= s@.subrange(0, n as int));
            }
            scan_digits(s, 0, n)
        },
        Option::Some(d) => {
            proof {
                lemma_first_dot_is(s@, d as int);
            }
            if d == 0 || d + 1 >= n {
                proof {
                    if d == 0 {
                        assert(uint_part(body).len() == 0);
                    } else {
                        assert(ufrac_part(body) =~= s@.skip(d + 1));
                        assert(ufrac_part(body).len() == 0);
                    }
                }
                false
            } else {
                proof {
                    assert(uint_part(body) =~= s@.subrange(0, d as int));
                    assert(ufrac_part(body) =~= s@.subrange(d as int + 1, n as int));
                }
                scan_digits(s, 0, d) && scan_digits(s, d + 1, n)
            }
        },
    };
    if !structure_ok {
        return false;
    }
    proof {
        assert(valid_amount_str(s@));
    }
    let mut i: usize = 0;
    while i < n
        invariant
            0 <= i <= n,
            n == s@.len(),
            valid_amount_str(s@),
            !is_negative_str(s@),
            forall|j: int|
                0 <= j < i ==> !(is_dec_digit(#[trigger] s@[j]) && s@[j] != '0'),
        decreases n - i,
    {
        let c = s.get_char(i);
        let v = c as u32;
        if 49 <= v && v <= 57 {
            proof {
                assert(is_dec_digit(s@[i as int]) && s@[i as int] != '0');
            }
            return true;
        }
        i = i + 1;
    }
    false
}

/// Computes 10^n for a small exponent.
fn pow10_u64(n: u32) -> (r: u64)
    requires
        n <= 7,
    ensures
        r as int == pow10(n as nat),
{
    proof {
        reveal_with_fuel(pow10, 8);
    }
    match n {
        0 => 1,
        1 => 10,
        2 => 100,
        3 => 1_000,
        4 => 10_000,
        5 => 100_000,
        6 => 1_000_000,
        _ => 10_000_000,
    }
}


/// Converts an amount string to its exact stroop count, or reports that the
/// amount cannot be carried as a signed 64-bit stroop count.
pub fn amount_to_stroops(s: &str) -> (r: Option<i64>)
    ensures
        r is Some <==> amount_representable(s@),
        r is Some ==> r->0 as int == stroops_of_body(s@),
{
    let n = s.unicode_len();
    if n == 0 {
        return None;
    }
    if s.get_char(0) == '-' {
        return None;
    }
    proof {
        assert(unsigned_body(s@) =~= s@);
    }
    let dot = find_dot(s);
    let int_to: usize;
    let frac_from: usize;
    match dot {
        Option::None => {
            proof {
                lemma_first_dot_none(s@);
            }
            int_to = n;
            frac_from = n;
        },
        Option::Some(d) => {
            proof {
                lemma_first_dot_is(s@, d as int);
            }
            if d == 0 || d + 1 >= n {
                proof {
                    if d > 0 {
                        assert(ufrac_part(s@) =~= s@.skip(d + 1));
                    }
                }
                return None;
            }
            int_to = d;
            frac_from = d + 1;
        },
    }
    proof {
        assert(uint_part(s@) =~= s@.subrange(0, int_to as int));
        assert(ufrac_part(s@) =~= s@.subrange(frac_from as int, n as int));
    }
    let frac_len = n - frac_from;
    if frac_len > 7 {
        return None;
    }
    let frac_val: u64 = if frac_from < n {
        match parse_dec_u64(s, frac_from, n) {
            Option::None => {
                proof {
                    if all_dec_digits(ufrac_part(s@)) {
                        lemma_dec_value_upper(ufrac_part(s@));
                        reveal_with_fuel(pow10, 8);
                    assert(pow10(7) == 10_000_000);
                    }
                }
                return None;
            },
            Option::Some(f) => f,
        }
    } else {
        0
    };
    proof {
        lemma_dec_value_nonneg(ufrac_part(s@));
        lemma_dec_value_upper(ufrac_part(s@));
        reveal_with_fuel(pow10, 8);
                    assert(pow10(7) == 10_000_000);
    }
    let scale = pow10_u64(7 - frac_len as u32);
    proof {
        let fl = ufrac_part(s@).len();
        lemma_pow10_mono(fl, (7 - fl) as nat);
        // dec(frac) < 10^fl and scale == 10^(7-fl), so the product stays under 10^7
        vstd::arithmetic::mul::lemma_mul_inequality(
            frac_val as int,
            pow10(fl) - 1,
            pow10((7 - fl) as nat),
        );
        vstd::arithmetic::mul::lemma_mul_is_distributive_sub_other_way(
            pow10((7 - fl) as nat),
            pow10(fl),
            1,
        );
    }
    let frac_scaled = frac_val * scale;
    let int_val: u64 = match parse_dec_u64(s, 0, int_to) {
        Option::None => {
            proof {
                if all_dec_digits(uint_part(s@)) {
                    // value exceeds u64::MAX, so the stroop count exceeds i64::MAX
                    lemma_dec_value_nonneg(uint_part(s@));
                    vstd::arithmetic::mul::lemma_mul_inequality(
                        1,
                        10_000_000,
                        dec_seq_value(uint_part(s@)),
                    );
                }
            }
            return None;
        },
        Option::Some(v) => v,
    };
    proof {
        lemma_dec_value_nonneg(uint_part(s@));
        vstd::arithmetic::div_mod::lemma_fundamental_div_mod(
            (i64::MAX - frac_scaled) as int,
            10_000_000,
        );
    }
    if int_val > ((i64::MAX as u64) - frac_scaled) / 10_000_000 {
        return None;
    }
    let stroops = int_val * 10_000_000 + frac_scaled;
    Some(stroops as i64)
}

/// The product of two powers of ten bounds: 10^a * 10^b == 10^(a+b).
proof fn lemma_pow10_mono(a: nat, b: nat)
    ensures
        pow10(a) * pow10(b) == pow10(a + b),
        pow10(a) >= 1,
        pow10(b) >= 1,
    decreases a,
{
    if a == 0 {
        lemma_pow10_mono_base(b);
        assert(pow10(a) * pow10(b) == 1 * pow10(b));
        assert(1 * pow10(b) == pow10(b));
    } else {
        lemma_pow10_mono((a - 1) as nat, b);
        let p1 = pow10((a - 1) as nat);
        assert(pow10(a) * pow10(b) == (10 * p1) * pow10(b));
        assert((10 * p1) * pow10(b) == 10 * (p1 * pow10(b))) by {
            vstd::arithmetic::mul::lemma_mul_is_associative(10, p1, pow10(b));
        }
        assert((a - 1) as nat + b == (a + b - 1) as nat);
        assert(p1 * pow10(b) == pow10((a + b - 1) as nat));
        assert(10 * (p1 * pow10(b)) == 10 * pow10((a + b - 1) as nat));
        assert(pow10(a + b) == 10 * pow10((a + b - 1) as nat));
        assert(pow10(a) * pow10(b) == pow10(a + b));
    }
}

/// A power of ten is at least one.
proof fn lemma_pow10_mono_base(b: nat)
    ensures
        pow10(b) >= 1,
    decreases b,
{
    if b > 0 {
        lemma_pow10_mono_base((b - 1) as nat);
    }
}

/// A representable amount has a non-negative stroop count.
pub proof fn lemma_stroops_nonneg(s: Seq<char>)
    requires
        amount_representable(s),
    ensures
        stroops_of_body(s) >= 0,
{
    lemma_dec_value_nonneg(uint_part(s));
    lemma_dec_value_nonneg(ufrac_part(s));
    lemma_pow10_mono_base((7 - ufrac_part(s).len()) as nat);
    vstd::arithmetic::mul::lemma_mul_nonnegative(dec_seq_value(uint_part(s)), 10_000_000);
    vstd::arithmetic::mul::lemma_mul_nonnegative(
        dec_seq_value(ufrac_part(s)),
        pow10((7 - ufrac_part(s).len()) as nat),
    );
}

/// The digit values of a digit string.
pub open spec fn digits_of(s: Seq<char>) -> Seq<u8> {
    Seq::new(s.len(), |i: int| (s[i] as int - 48) as u8)
}

/// An arbitrary-precision decimal held as a sign and the digit strings on
/// either side of the decimal point. Amounts are kept in this exact form;
/// they are never converted to floating point.
#[derive(Debug, Clone)]
pub struct Decimal {
    pub negative: bool,
    pub int_digits: Vec<u8>,
    pub frac_digits: Vec<u8>,
}

impl Decimal {
    /// Digits are in range and the integer part is non-empty.
    pub open spec fn wf(&self) -> bool {
        &&& self.int_digits@.len() > 0
        &&& forall|i: int| 0 <= i < self.int_digits@.len() ==> self.int_digits@[i] < 10
        &&& forall|i: int| 0 <= i < self.frac_digits@.len() ==> self.frac_digits@[i] < 10
    }
}

/// The zero decimal that malformed input parses to.
fn zero_decimal() -> (r: Decimal)
    ensures
        r.negative == false,
        r.int_digits@ =~= seq![0u8],
        r.frac_digits@ =~= Seq::<u8>::empty(),
        r.wf(),
{
    let mut int_digits: Vec<u8> = Vec::new();
    int_digits.push(0);
    Decimal { negative: false, int_digits, frac_digits: Vec::new() }
}

/// Copies the digit values in `[from, to)` out of a digit substring.
fn copy_digits(s: &str, from: usize, to: usize) -> (r: Vec<u8>)
    requires
        from <= to <= s@.len(),
        all_dec_digits(s@.subrange(from as int, to as int)),
    ensures
        r@ == digits_of(s@.subrange(from as int, to as int)),
{
    let ghost sub = s@.subrange(from as int, to as int);
    let mut r: Vec<u8> = Vec::new();
    let mut i: usize = from;
    while i < to
        invariant
            from <= i <= to <= s@.len(),
            sub == s@.subrange(from as int, to as int),
            all_dec_digits(sub),
            r@ =~= digits_of(sub).take(i - from),
        decreases to - i,
    {
        let c = s.get_char(i);
        proof {
            assert(sub[i - from] == s@[i as int]);
            assert(is_dec_digit(sub[i - from]));
        }
        let v = c as u32;
        r.push((v - 48) as u8);
        proof {
            assert(r@ =~= digits_of(sub).take(i + 1 - from));
        }
        i = i + 1;
    }
    proof {
        assert(digits_of(sub).take(to - from) =~= digits_of(sub));
    }
    r
}

/// Parses an amount string into a [`Decimal`]. Malformed input yields zero
/// rather than failing: the documented lenient-parse policy.
pub fn parse_amount(s: &str) -> (r: Decimal)
    ensures
        r.wf(),
        valid_amount_str(s@) ==> {
            &&& r.negative == is_negative_str(s@)
            &&& r.int_digits@ == digits_of(uint_part(unsigned_body(s@)))
            &&& r.frac_digits@ == digits_of(ufrac_part(unsigned_body(s@)))
        },
        !valid_amount_str(s@) ==> {
            &&& r.negative == false
            &&& r.int_digits@ == seq![0u8]
            &&& r.frac_digits@ == Seq::<u8>::empty()
        },
{
    let n = s.unicode_len();
    if n == 0 {
        return zero_decimal();
    }
    let neg = s.get_char(0) == '-';
    let o: usize = if neg { 1 } else { 0 };
    if o >= n {
        return zero_decimal();
    }
    let ghost body = unsigned_body(s@);
    proof {
        assert(body =~= s@.subrange(o as int, n as int));
    }
    let dot = find_dot(s);
    let int_to: usize;
    let frac_from: usize;
    match dot {
        Option::None => {
            proof {
                assert forall|i: int| 0 <= i < body.len() implies body[i] != '.' by {
                    assert(body[i] == s@[o + i]);
                }
                lemma_first_dot_none(body);
            }
            int_to = n;
            frac_from = n;
        },
        Option::Some(d) => {
            proof {
                assert(s@[d as int] == '.');
                assert(d >= o) by {
                    if neg {
                        assert(s@[0] == '-');
                    }
                }
                assert(body[d - o] == '.');
                assert forall|i: int| 0 <= i < d - o implies body[i] != '.' by {
                    assert(body[i] == s@[o + i]);
                }
                lemma_first_dot_is(body, d - o);
            }
            if d == o || d + 1 >= n {
                proof {
                    if d == o {
                        assert(uint_part(body).len() == 0);
                    } else {
                        assert(ufrac_part(body) =~= s@.subrange(d as int + 1, n as int));
                        assert(ufrac_part(body).len() == 0);
                    }
                }
                return zero_decimal();
            }
            int_to = d;
            frac_from = d + 1;
        },
    }
    proof {
        assert(uint_part(body) =~= s@.subrange(o as int, int_to as int));
        assert(ufrac_part(body) =~= s@.subrange(frac_from as int, n as int));
    }
    if !scan_digits(s, o, int_to) {
        return zero_decimal();
    }
    if frac_from < n && !scan_digits(s, frac_from, n) {
        return zero_decimal();
    }
    let int_digits = copy_digits(s, o, int_to);
    let frac_digits = if frac_from < n {
        copy_digits(s, frac_from, n)
    } else {
        Vec::new()
    };
    proof {
        if frac_from >= n {
            assert(digits_of(ufrac_part(body)) =~= Seq::<u8>::empty());
        }
    }
    Decimal { negative: neg, int_digits, frac_digits }
}

} // verus!
