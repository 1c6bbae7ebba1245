//! The computation IR: decoded literals, named operations, and the
//! dispatcher that evaluates one operation against an environment.

use vstd::prelude::*;

verus! {

use crate::value::{VALUE, Ty, CmpKind};
use crate::value;
use vstd::string::StrSliceExecFns;

pub open spec fn is_digit_char(c: char) -> bool {
    48 <= c as int && c as int <= 57
}

pub open spec fn all_digits(s: Seq<char>) -> bool {
    forall|i: int| 0 <= i < s.len() ==> is_digit_char(#[trigger] s[i])
}

/// The number a string of decimal digits denotes.
pub open spec fn digits_val(s: Seq<char>) -> int
    decreases s.len(),
{
    if s.len() == 0 {
        0
    } else {
        digits_val(s.drop_last()) * 10 + (s.last() as int - 48)
    }
}

pub open spec fn pow10(n: nat) -> int
    decreases n,
{
    if n == 0 {
        1
    } else {
        10 * pow10((n - 1) as nat)
    }
}

proof fn lemma_digits_val_bound(s: Seq<char>)
    requires
        all_digits(s),
    ensures
        0 <= digits_val(s) < pow10(s.len()),
    decreases s.len(),
{
    if s.len() > 0 {
        assert(all_digits(s.drop_last()));
        lemma_digits_val_bound(s.drop_last());
    }
}

proof fn lemma_pow10_19_fits()
    ensures
        pow10(19) == 10_000_000_000_000_000_000,
{
    reveal_with_fuel(pow10, 21);
}

/// An unsigned decimal reading of a string: defined for one to nineteen
/// digits (every such number fits in a `u64`).
pub open spec fn spec_parse_u64(s: Seq<char>) -> Option<u64> {
    if 1 <= s.len() <= 19 && all_digits(s) {
        Some(digits_val(s) as u64)
    } else {
        None
    }
}

/// A signed decimal reading: an optional leading minus sign, then digits.
pub open spec fn spec_parse_i64(s: Seq<char>) -> Option<i64> {
    if s.len() >= 1 && s[0] == '-' {
        match spec_parse_u64(s.drop_first()) {
            Some(m) => if m <= 0x8000_0000_0000_0000u64 {
                Some((0 - m as int) as i64)
            } else {
                None
            },
            None => None,
        }
    } else {
        match spec_parse_u64(s) {
            Some(m) => if m <= i64::MAX as u64 {
                Some(m as i64)
            } else {
                None
            },
            None => None,
        }
    }
}

/// Read an unsigned decimal from the tail of a string, starting at a
/// character index; see `spec_parse_u64`.
pub fn parse_u64_pub(s: &str, start: usize, n: usize) -> (r: Option<u64>)
    requires
        start <= n,
        n == s@.len(),
    ensures
        r == spec_parse_u64(s@.skip(start as int)),
{
    parse_u64_str(s, start, n)
}

fn parse_u64_str(s: &str, start: usize, n: usize) -> (r: Option<u64>)
    requires
        start <= n,
        n == s@.len(),
    ensures
        r == spec_parse_u64(s@.skip(start as int)),
{
    let ghost tail = s@.skip(start as int);
    if n - start < 1 || n - start > 19 {
        return None;
    }
    let mut acc: u64 = 0;
    let mut i: usize = start;
    while i < n
        invariant
            start <= i <= n,
            n == s@.len(),
            1 <= n - start <= 19,
            tail == s@.skip(start as int),
            all_digits(s@.subrange(start as int, i as int)),
            acc == digits_val(s@.subrange(start as int, i as int)),
        decreases n - i,
    {
        let c = s.get_char(i);
        let cu = c as u32;
        if cu < 48 || cu > 57 {
            proof {
                assert(!is_digit_char(s@[i as int]));
                assert(tail[i - start] == s@[i as int]);
                assert(!all_digits(tail));
            }
            return None;
        }
        proof {
            assert(s@.subrange(start as int, i + 1).drop_last() =~= s@.subrange(
                start as int,
                i as int,
            ));
            assert(s@.subrange(start as int, i + 1).last() == s@[i as int]);
            lemma_digits_val_bound(s@.subrange(start as int, i as int));
            lemma_pow10_19_fits();
            // the accumulator keeps room for one more digit
            assert(pow10((i - start) as nat) <= pow10(18)) by {
                lemma_pow10_mono((i - start) as nat, 18);
            };
            assert(pow10(18) * 10 == pow10(19)) by {
                reveal_with_fuel(pow10, 21);
            };
        }
        acc = acc * 10 + ((cu - 48) as u64);
        i = i + 1;
    }
    proof {
        assert(s@.subrange(start as int, n as int) =~= tail);
    }
    Some(acc)
}

proof fn lemma_pow10_mono(a: nat, b: nat)
    requires
        a <= b,
    ensures
        pow10(a) <= pow10(b),
    decreases b,
{
    if a < b {
        lemma_pow10_mono(a, (b - 1) as nat);
        lemma_digits_pow_pos((b - 1) as nat);
    }
}

proof fn lemma_digits_pow_pos(n: nat)
    ensures
        pow10(n) >= 1,
    decreases n,
{
    if n > 0 {
        lemma_digits_pow_pos((n - 1) as nat);
    }
}

fn parse_i64_str(s: &str) -> (r: Option<i64>)
    ensures
        r == spec_parse_i64(s@),
{
    let n = s.unicode_len();
    if n >= 1 && s.get_char(0) == '-' {
        proof {
            assert(s@[0] == '-');
            assert(s@.skip(1) =~= s@.drop_first());
        }
        match parse_u64_str(s, 1, n) {
            Some(m) => {
                if m <= 0x8000_0000_0000_0000u64 {
                    if m == 0x8000_0000_0000_0000u64 {
                        Some(i64::MIN)
                    } else {
                        Some(-(m as i64))
                    }
                } else {
                    None
                }
            },
            None => None,
        }
    } else {
        proof {
            if n >= 1 {
                assert(s@[0] != '-');
            }
            assert(s@.skip(0) =~= s@);
        }
        match parse_u64_str(s, 0, n) {
            Some(m) => {
                if m <= 0x7FFF_FFFF_FFFF_FFFFu64 {
                    Some(m as i64)
                } else {
                    None
                }
            },
            None => None,
        }
    }
}

/// The first position of a character in a string.
pub open spec fn first_idx(s: Seq<char>, c: char) -> Option<int>
    decreases s.len(),
{
    if s.len() == 0 {
        None
    } else if s[0] == c {
        Some(0int)
    } else {
        match first_idx(s.drop_first(), c) {
            Some(i) => Some(i + 1),
            None => None,
        }
    }
}

proof fn lemma_first_idx_at(s: Seq<char>, c: char, i: int)
    requires
        0 <= i <= s.len(),
        forall|k: int| 0 <= k < i ==> s[k] != c,
    ensures
        i < s.len() && s[i] == c ==> first_idx(s, c) == Some(i),
        i == s.len() ==> first_idx(s, c) is None,
    decreases i,
{
    if i > 0 {
        assert(s[0] != c);
        assert(s.drop_first() =~= s.subrange(1, s.len() as int));
        lemma_first_idx_at(s.drop_first(), c, i - 1);
    }
}

/// The first occurrence follows from a scan that found none earlier.
pub proof fn lemma_first_idx_found(s: Seq<char>, c: char, i: int)
    requires
        0 <= i <= s.len(),
        forall|k: int| 0 <= k < i ==> s[k] != c,
    ensures
        i < s.len() && s[i] == c ==> first_idx(s, c) == Some(i),
        i == s.len() ==> first_idx(s, c) is None,
{
    lemma_first_idx_at(s, c, i);
}

pub open spec fn pow5(n: nat) -> int
    decreases n,
{
    if n == 0 {
        1
    } else {
        5 * pow5((n - 1) as nat)
    }
}

/// The digit characters of a plain decimal literal with at most one dot,
/// paired with the count of fraction digits; anything else reads as none.
pub open spec fn spec_mantissa(body: Seq<char>) -> Option<(Seq<char>, nat)> {
    match first_idx(body, '.') {
        None => if body.len() >= 1 && all_digits(body) {
            Some((body, 0nat))
        } else {
            None
        },
        Some(j) => {
            let digits = body.take(j) + body.skip(j + 1);
            if digits.len() >= 1 && all_digits(digits) {
                Some((digits, (body.len() - j - 1) as nat))
            } else {
                None
            }
        },
    }
}

proof fn lemma_mantissa_none_bad(body: Seq<char>, p: int)
    requires
        0 <= p < body.len(),
        !is_digit_char(body[p]),
        body[p] != '.',
    ensures
        spec_mantissa(body) is None,
{
    lemma_first_idx_in(body, '.');
    match first_idx(body, '.') {
        None => {
            assert(!all_digits(body));
        },
        Some(j) => {
            let digits = body.take(j) + body.skip(j + 1);
            assert(j != p);
            if p < j {
                assert(digits[p] == body[p]);
            } else {
                assert(digits[p - 1] == body[p]);
            }
            assert(!all_digits(digits));
        },
    }
}

proof fn lemma_mantissa_none_twodots(body: Seq<char>, j: int, p: int)
    requires
        first_idx(body, '.') == Some(j),
        0 <= j < p < body.len(),
        body[p] == '.',
    ensures
        spec_mantissa(body) is None,
{
    lemma_first_idx_in(body, '.');
    let digits = body.take(j) + body.skip(j + 1);
    assert(digits[p - 1] == body[p]);
    assert(!is_digit_char('.'));
    assert(!all_digits(digits));
}

/// The bit pattern a plain decimal float literal denotes at a format,
/// when the library can decode it exactly: the literal reads as
/// `±D / 10^f`; a zero is the signed zero, and otherwise the scaled
/// magnitude must be a dyadic rational (`5^f` divides `D`) whose binary
/// scaling stays in the normal range.  Literals beyond nineteen digits,
/// inexact fractions and exponent notation read as none (the loader
/// decodes those with host floats outside the kernel).
pub open spec fn spec_float_literal_bits(s: Seq<char>, mant: nat, bias: int, sign_pos: nat)
    -> Option<int> {
    let neg = s.len() >= 1 && s[0] == '-';
    let body = if neg {
        s.drop_first()
    } else {
        s
    };
    match spec_mantissa(body) {
        None => None,
        Some((digits, f)) => if digits.len() > 19 {
            None
        } else {
            let d = digits_val(digits);
            if d == 0 {
                Some(
                    if neg {
                        crate::value::pow2(sign_pos)
                    } else {
                        0int
                    },
                )
            } else if d % pow5(f) == 0 {
                let m = d / pow5(f);
                let bits0 = crate::value::spec_float_bits(m, false, mant, bias, sign_pos);
                let expf = bits0 / crate::value::pow2(mant);
                if expf > f {
                    Some(
                        bits0 - f * crate::value::pow2(mant) + if neg {
                            crate::value::pow2(sign_pos)
                        } else {
                            0int
                        },
                    )
                } else {
                    None
                }
            } else {
                None
            }
        },
    }
}

/// The value a literal string denotes at an element type.  Integer literals
/// are decimal with an optional minus sign on signed types; booleans accept
/// `0`, `1`, `true` and `false`; float literals decode when the format
/// represents them exactly (see `spec_float_literal_bits`).  A literal the
/// type cannot read yields `ERROR`.
pub open spec fn spec_build_value(t: Ty, s: Seq<char>) -> VALUE {
    match t {
        Ty::I32 => match spec_parse_i64(s) {
            Some(v) => if i32::MIN <= v <= i32::MAX {
                VALUE::I32(v as i32)
            } else {
                VALUE::ERROR
            },
            None => VALUE::ERROR,
        },
        Ty::I64 => match spec_parse_i64(s) {
            Some(v) => VALUE::I64(v),
            None => VALUE::ERROR,
        },
        Ty::U32 => match spec_parse_u64(s) {
            Some(v) => if v <= u32::MAX as u64 {
                VALUE::U32(v as u32)
            } else {
                VALUE::ERROR
            },
            None => VALUE::ERROR,
        },
        Ty::U64 => match spec_parse_u64(s) {
            Some(v) => VALUE::U64(v),
            None => VALUE::ERROR,
        },
        Ty::Bool => if s == seq!['0'] || s == seq!['f', 'a', 'l', 's', 'e'] {
            VALUE::Bool(false)
        } else if s == seq!['1'] || s == seq!['t', 'r', 'u', 'e'] {
            VALUE::Bool(true)
        } else {
            VALUE::ERROR
        },
        Ty::F32 => match spec_float_literal_bits(s, 23, 127, 31) {
            Some(b) => VALUE::F32(b as u32),
            None => VALUE::ERROR,
        },
        Ty::F64 => match spec_float_literal_bits(s, 52, 1023, 63) {
            Some(b) => VALUE::F64(b as u64),
            None => VALUE::ERROR,
        },
        _ => VALUE::ERROR,
    }
}

fn exec_pow5(f: usize) -> (r: u64)
    requires
        f <= 19,
    ensures
        r == pow5(f as nat),
        r >= 1,
{
    proof {
        reveal_with_fuel(pow5, 21);
    }
    let mut r: u64 = 1;
    let mut i: usize = 0;
    while i < f
        invariant
            i <= f,
            f <= 19,
            r == pow5(i as nat),
            1 <= r <= 0x4000000000000,
        decreases f - i,
    {
        proof {
            reveal_with_fuel(pow5, 21);
            lemma_pow5_mono(i as nat + 1, 19);
        }
        r = r * 5;
        i = i + 1;
    }
    r
}

proof fn lemma_pow5_mono(a: nat, b: nat)
    requires
        a <= b,
    ensures
        pow5(a) <= pow5(b),
        pow5(a) >= 1,
    decreases b,
{
    if a < b {
        lemma_pow5_mono(a, (b - 1) as nat);
    } else if a > 0 {
        lemma_pow5_mono((a - 1) as nat, (b - 1) as nat);
    }
}

/// Scan the digit characters of a plain decimal literal: the decimal
/// value of the digit string and the count of fraction digits, or none
/// when the literal is not a decimal of at most nineteen digits.
#[verifier::rlimit(100)]
#[verifier::spinoff_prover]
fn scan_mantissa(s: &str, start: usize, n: usize) -> (r: Option<(u64, usize)>)
    requires
        start <= n,
        n == s@.len(),
    ensures
        ({
            let body = s@.subrange(start as int, n as int);
            match r {
                Some(p) => spec_mantissa(body) matches Some(q) && q.1 == p.1 && digits_val(q.0)
                    == p.0 && 1 <= q.0.len() <= 19 && q.1 <= q.0.len(),
                None => spec_mantissa(body) is None || (spec_mantissa(body) matches Some(q)
                    && q.0.len() > 19),
            }
        }),
{
    let ghost body: Seq<char> = s@.subrange(start as int, n as int);
    let mut acc: u64 = 0;
    let mut count: usize = 0;
    let mut dot: Option<usize> = None;
    let ghost mut digs: Seq<char> = Seq::empty();
    let mut i: usize = start;
    while i < n
        invariant
            start <= i <= n,
            n == s@.len(),
            body == s@.subrange(start as int, n as int),
            count == digs.len(),
            count <= 19,
            all_digits(digs),
            acc == digits_val(digs),
            match dot {
                None => digs =~= body.take(i - start) && (forall|k: int|
                    0 <= k < i - start ==> body[k] != '.'),
                Some(dp) => {
                    &&& start <= dp < i
                    &&& body[dp - start] == '.'
                    &&& (forall|k: int| dp - start < k < i - start ==> body[k] != '.')
                    &&& digs =~= body.take(dp - start) + body.subrange(dp - start + 1, i - start)
                    &&& first_idx(body, '.') == Some(dp - start)
                },
            },
        decreases n - i,
    {
        let c = s.get_char(i);
        proof {
            assert(body[i - start] == s@[i as int]);
        }
        if c == '.' {
            match dot {
                None => {
                    proof {
                        lemma_first_idx_at(body, '.', i - start);
                    }
                    dot = Some(i);
                },
                Some(dp) => {
                    // a second dot lands among the digit characters
                    proof {
                        lemma_mantissa_none_twodots(body, dp - start, i - start);
                    }
                    return None;
                },
            }
        } else {
            let cu = c as u32;
            if cu < 48 || cu > 57 {
                // a non-digit character lands among the digit characters
                proof {
                    assert(!is_digit_char(body[i - start]));
                    assert(body[i - start] != '.');
                    lemma_mantissa_none_bad(body, i - start);
                }
                return None;
            }
            if count == 19 {
                // a twentieth digit: the digit string is too long to decode
                proof {
                    lemma_first_idx_in(body, '.');
                    match dot {
                        None => {
                            assert(i - start == count);
                            match first_idx(body, '.') {
                                None => {
                                    assert(body.len() >= i - start + 1);
                                },
                                Some(j) => {
                                    assert(body[i - start] != '.');
                                    assert(j > i - start);
                                    assert(body.len() > j);
                                    let digits = body.take(j) + body.skip(j + 1);
                                    assert(digits.len() == body.len() - 1);
                                    assert(digits.len() >= 20);
                                },
                            }
                        },
                        Some(dp) => {
                            assert(i - start == count + 1);
                            let j = dp - start;
                            let digits = body.take(j) + body.skip(j + 1);
                            assert(digits.len() == body.len() - 1);
                            assert(body.len() >= i - start + 1);
                            assert(digits.len() >= 20);
                        },
                    }
                }
                return None;
            }
            proof {
                assert(digs.push(body[i - start]).drop_last() =~= digs);
                lemma_digits_val_bound(digs);
                lemma_pow10_19_fits();
                assert(pow10(count as nat) <= pow10(18)) by {
                    lemma_pow10_mono(count as nat, 18);
                };
                assert(pow10(18) * 10 == pow10(19)) by {
                    reveal_with_fuel(pow10, 21);
                };
            }
            acc = acc * 10 + ((cu - 48) as u64);
            count = count + 1;
            proof {
                digs = digs.push(body[i - start]);
            }
        }
        proof {
            match dot {
                None => {
                    assert(digs =~= body.take(i + 1 - start));
                },
                Some(dp) => {
                    assert(digs =~= body.take(dp - start) + body.subrange(
                        dp - start + 1,
                        i + 1 - start,
                    ));
                },
            }
        }
        i = i + 1;
    }
    proof {
        match dot {
            None => {
                assert(body.take(n - start) =~= body);
                lemma_first_idx_at(body, '.', n - start);
            },
            Some(dp) => {
                assert(body.subrange(dp - start + 1, n - start) =~= body.skip(dp - start + 1));
            },
        }
    }
    if count == 0 {
        return None;
    }
    let f: usize = match dot {
        Some(dp) => n - 1 - dp,
        None => 0,
    };
    proof {
        match dot {
            Some(dp) => {
                assert(body.skip(dp - start + 1).len() == n - 1 - dp);
                assert(digs.len() >= body.skip(dp - start + 1).len());
            },
            None => {},
        }
    }
    Some((acc, f))
}

/// Decode a plain decimal float literal into the bit pattern of a format;
/// see `spec_float_literal_bits`.
#[verifier::rlimit(100)]
#[verifier::spinoff_prover]
fn parse_float_bits(s: &str, mant: u32, bias: u64, sign_pos: u32) -> (r: Option<u64>)
    requires
        (mant == 52 && bias == 1023 && sign_pos == 63) || (mant == 23 && bias == 127 && sign_pos
            == 31),
    ensures
        match spec_float_literal_bits(s@, mant as nat, bias as int, sign_pos as nat) {
            Some(b) => r matches Some(x) && x == b,
            None => r is None,
        },
{
    let n = s.unicode_len();
    let neg = n >= 1 && s.get_char(0) == '-';
    let start: usize = if neg {
        1
    } else {
        0
    };
    let ghost body: Seq<char> = if neg {
        s@.drop_first()
    } else {
        s@
    };
    proof {
        assert(body =~= s@.subrange(start as int, n as int));
    }
    let scanned = scan_mantissa(s, start, n);
    let (acc, f) = match scanned {
        None => {
            return None;
        },
        Some(p) => p,
    };
    if acc == 0 {
        if neg {
            return Some(exec_pow2_pub(sign_pos));
        } else {
            return Some(0);
        }
    }
    if f > 19 {
        return None;
    }
    let p5 = exec_pow5(f);
    if acc % p5 != 0 {
        return None;
    }
    let m = acc / p5;
    let bits0 = crate::value::encode_float_bits_pub(m, false, mant, bias, sign_pos);
    let p_mant = exec_pow2_pub(mant);
    let expf = bits0 / p_mant;
    if expf > f as u64 {
        proof {
            // the exponent field leaves room for the power-of-ten shift
            assert(bits0 >= (expf as int) * p_mant) by (nonlinear_arith)
                requires
                    p_mant >= 1,
                    expf == bits0 / p_mant,
                    bits0 >= 0,
            ;
            assert((f as int) * p_mant < (expf as int) * p_mant) by (nonlinear_arith)
                requires
                    p_mant >= 1,
                    (f as int) < (expf as int),
            ;
            assert((f as u64) as int * p_mant <= bits0);
        }
        let adjusted = bits0 - (f as u64) * p_mant;
        if neg {
            proof {
                assert(crate::value::pow2(63) == 0x8000_0000_0000_0000) by {
                    reveal_with_fuel(crate::value::pow2, 65);
                };
                assert(crate::value::pow2(31) == 0x8000_0000) by {
                    reveal_with_fuel(crate::value::pow2, 33);
                };
            }
            Some(adjusted + exec_pow2_pub(sign_pos))
        } else {
            Some(adjusted)
        }
    } else {
        None
    }
}

proof fn lemma_first_idx_in(s: Seq<char>, c: char)
    ensures
        first_idx(s, c) matches Some(j) ==> 0 <= j < s.len() && s[j] == c,
    decreases s.len(),
{
    if s.len() > 0 && s[0] != c {
        lemma_first_idx_in(s.drop_first(), c);
    }
}

fn exec_pow2_pub(k: u32) -> (r: u64)
    requires
        k < 64,
    ensures
        r == crate::value::pow2(k as nat),
        r >= 1,
{
    crate::value::exec_pow2_of(k)
}

fn char_at_is(s: &str, i: usize, n: usize, expected: char) -> (r: bool)
    requires
        i < n,
        n == s@.len(),
    ensures
        r == (s@[i as int] == expected),
{
    s.get_char(i) == expected
}

/// Decode a literal string at an element type; see `spec_build_value`.
pub fn build_value(data_type: Ty, value: &str) -> (r: VALUE)
    ensures
        r == spec_build_value(data_type, value@),
{
    match data_type {
        Ty::I32 => match parse_i64_str(value) {
            Some(v) => {
                if -2147483648i64 <= v && v <= 2147483647i64 {
                    VALUE::I32(v as i32)
                } else {
                    VALUE::ERROR
                }
            },
            None => VALUE::ERROR,
        },
        Ty::I64 => match parse_i64_str(value) {
            Some(v) => VALUE::I64(v),
            None => VALUE::ERROR,
        },
        Ty::U32 => {
            let n = value.unicode_len();
            proof { assert(value@.skip(0) =~= value@); }
            match parse_u64_str(value, 0, n) {
                Some(v) => {
                    if v <= 4294967295u64 {
                        VALUE::U32(v as u32)
                    } else {
                        VALUE::ERROR
                    }
                },
                None => VALUE::ERROR,
            }
        },
        Ty::U64 => {
            let n = value.unicode_len();
            proof { assert(value@.skip(0) =~= value@); }
            match parse_u64_str(value, 0, n) {
                Some(v) => VALUE::U64(v),
                None => VALUE::ERROR,
            }
        },
        Ty::F32 => match parse_float_bits(value, 23, 127, 31) {
            Some(bits) => VALUE::F32(#[verifier::truncate] (bits as u32)),
            None => VALUE::ERROR,
        },
        Ty::F64 => match parse_float_bits(value, 52, 1023, 63) {
            Some(bits) => VALUE::F64(bits),
            None => VALUE::ERROR,
        },
        Ty::Bool => {
            let n = value.unicode_len();
            if n == 1 && char_at_is(value, 0, n, '0') {
                proof { assert(value@ =~= seq!['0']); }
                VALUE::Bool(false)
            } else if n == 1 && char_at_is(value, 0, n, '1') {
                proof { assert(value@ =~= seq!['1']); }
                VALUE::Bool(true)
            } else if n == 4 && char_at_is(value, 0, n, 't') && char_at_is(value, 1, n, 'r')
                && char_at_is(value, 2, n, 'u') && char_at_is(value, 3, n, 'e') {
                proof { assert(value@ =~= seq!['t', 'r', 'u', 'e']); }
                VALUE::Bool(true)
            } else if n == 5 && char_at_is(value, 0, n, 'f') && char_at_is(value, 1, n, 'a')
                && char_at_is(value, 2, n, 'l') && char_at_is(value, 3, n, 's')
                && char_at_is(value, 4, n, 'e') {
                proof { assert(value@ =~= seq!['f', 'a', 'l', 's', 'e']); }
                VALUE::Bool(false)
            } else {
                proof {
                    assert(value@ != seq!['0'] && value@ != seq!['1'] && value@ != seq![
                        't',
                        'r',
                        'u',
                        'e',
                    ] && value@ != seq!['f', 'a', 'l', 's', 'e']);
                }
                VALUE::ERROR
            }
        },
        _ => VALUE::ERROR,
    }
}

/// Whether a name equals a given literal, compared by characters.
pub fn str_is(s: &String, lit: &str) -> (r: bool)
    ensures
        r == (s@ == lit@),
{
    *s == lit.to_owned()
}

/// A named constant of the IR: a literal string paired with its type,
/// decoded to a `VALUE` once at load.
#[derive(Clone, Debug)]
pub struct Constant {
    pub name: String,
    pub value: String,
    pub ret_type: Ty,
}

impl Constant {
    pub fn new(name: String, value: String, ret_type: Ty) -> (r: Constant)
        ensures
            r.name == name,
            r.value == value,
            r.ret_type == ret_type,
    {
        Constant { name, value, ret_type }
    }

    /// The decoded value of this constant.
    pub fn decode(&self) -> (r: VALUE)
        ensures
            r == spec_build_value(self.ret_type, self.value@),
    {
        build_value(self.ret_type, self.value.as_str())
    }
}

/// The closed operator set of the computation IR.
#[derive(Clone, Copy, PartialEq, Eq, Structural, Debug)]
pub enum OpKind {
    Constant,
    ShiftLeft,
    ShiftRight,
    Add,
    Sub,
    Mul,
    Div,
    DivSI,
    And,
    Or,
    CmpGte,
    CmpGt,
    CmpLte,
    CmpLt,
    CmpEq,
    CmpSle,
    CmpNe,
    Not,
    IndexCast,
    Select,
    Exp,
    Erf,
    Sqrt,
    Powf,
    SiToFp,
    Trunc,
}

/// One computation of the IR: a result name, an operator, the declared
/// result type, and operand names.
#[derive(Clone, Debug)]
pub struct Computation {
    pub name: String,
    pub op_type: OpKind,
    pub ret_type: Ty,
    pub operands: Vec<String>,
}

impl Computation {
    pub fn new(name: String, op_type: OpKind, ret_type: Ty, operands: Vec<String>) -> (r:
        Computation)
        ensures
            r.name == name,
            r.op_type == op_type,
            r.ret_type == ret_type,
            r.operands == operands,
    {
        Computation { name, op_type, ret_type, operands }
    }
}

/// What one operator returns on already-fetched operand values.  `Constant`
/// and `IndexCast` are routed before the fetch and yield `ERROR` here;
/// `sitofp` converts its operand to the float result type through the
/// kernel's IEEE encoder; the host-float operators (`exp`, `sqrt`, `powf`)
/// lie outside the verified kernel and yield `ERROR`.
pub open spec fn spec_eval(op: OpKind, t: Ty, vs: Seq<VALUE>) -> VALUE {
    match op {
        OpKind::ShiftLeft => if vs.len() >= 2 {
            value::spec_shift_left(t, vs[0], vs[1])
        } else {
            VALUE::ERROR
        },
        OpKind::ShiftRight => if vs.len() >= 2 {
            value::spec_shift_right(t, vs[0], vs[1])
        } else {
            VALUE::ERROR
        },
        OpKind::Add => if vs.len() >= 2 {
            value::spec_add(t, vs[0], vs[1])
        } else {
            VALUE::ERROR
        },
        OpKind::Sub => if vs.len() >= 2 {
            value::spec_sub(t, vs[0], vs[1])
        } else {
            VALUE::ERROR
        },
        OpKind::Mul => if vs.len() >= 2 {
            value::spec_mul(t, vs[0], vs[1])
        } else {
            VALUE::ERROR
        },
        OpKind::Div | OpKind::DivSI => if vs.len() >= 2 {
            value::spec_div(t, vs[0], vs[1])
        } else {
            VALUE::ERROR
        },
        OpKind::And => if vs.len() >= 2 {
            value::spec_and(t, vs[0], vs[1])
        } else {
            VALUE::ERROR
        },
        OpKind::Or => if vs.len() >= 2 {
            value::spec_or(t, vs[0], vs[1])
        } else {
            VALUE::ERROR
        },
        OpKind::CmpGte => if vs.len() >= 2 {
            value::spec_cmp(CmpKind::Gte, vs[0], vs[1])
        } else {
            VALUE::ERROR
        },
        OpKind::CmpGt => if vs.len() >= 2 {
            value::spec_cmp(CmpKind::Gt, vs[0], vs[1])
        } else {
            VALUE::ERROR
        },
        OpKind::CmpLte | OpKind::CmpSle => if vs.len() >= 2 {
            value::spec_cmp(CmpKind::Lte, vs[0], vs[1])
        } else {
            VALUE::ERROR
        },
        OpKind::CmpLt => if vs.len() >= 2 {
            value::spec_cmp(CmpKind::Lt, vs[0], vs[1])
        } else {
            VALUE::ERROR
        },
        OpKind::CmpEq => if vs.len() >= 2 {
            value::spec_cmp(CmpKind::Eq, vs[0], vs[1])
        } else {
            VALUE::ERROR
        },
        OpKind::CmpNe => if vs.len() >= 2 {
            value::spec_cmp(CmpKind::Ne, vs[0], vs[1])
        } else {
            VALUE::ERROR
        },
        OpKind::Not => if vs.len() >= 1 {
            value::spec_not(vs[0])
        } else {
            VALUE::ERROR
        },
        OpKind::Select => if vs.len() >= 3 {
            value::spec_select(vs[0], vs[1], vs[2])
        } else {
            VALUE::ERROR
        },
        OpKind::Erf => if vs.len() >= 1 {
            value::spec_erf(vs[0])
        } else {
            VALUE::ERROR
        },
        OpKind::SiToFp => if vs.len() >= 1 {
            match t {
                Ty::F32 => value::spec_convert(vs[0], Ty::F32),
                Ty::F64 => value::spec_convert(vs[0], Ty::F64),
                _ => VALUE::ERROR,
            }
        } else {
            VALUE::ERROR
        },
        OpKind::Trunc => if vs.len() >= 1 && t == Ty::Bool {
            VALUE::Bool(value::spec_as_bool(vs[0]))
        } else {
            VALUE::ERROR
        },
        _ => VALUE::ERROR,
    }
}

/// Evaluate one operator on fetched operand values; see `spec_eval`.
pub fn eval_operation(op: OpKind, ret_type: Ty, values: &Vec<VALUE>) -> (r: VALUE)
    ensures
        r == spec_eval(op, ret_type, values@),
{
    match op {
        OpKind::ShiftLeft => value::shift_left(ret_type, values),
        OpKind::ShiftRight => value::shift_right(ret_type, values),
        OpKind::Add => value::add(ret_type, values),
        OpKind::Sub => value::sub(ret_type, values),
        OpKind::Mul => value::mul(ret_type, values),
        OpKind::Div | OpKind::DivSI => value::div(ret_type, values),
        OpKind::And => value::and(ret_type, values),
        OpKind::Or => value::or(ret_type, values),
        OpKind::CmpGte => value::compare(CmpKind::Gte, values),
        OpKind::CmpGt => value::compare(CmpKind::Gt, values),
        OpKind::CmpLte | OpKind::CmpSle => value::compare(CmpKind::Lte, values),
        OpKind::CmpLt => value::compare(CmpKind::Lt, values),
        OpKind::CmpEq => value::compare(CmpKind::Eq, values),
        OpKind::CmpNe => value::compare(CmpKind::Ne, values),
        OpKind::Not => value::not(values),
        OpKind::Select => value::select(values),
        OpKind::Erf => value::erf(values),
        OpKind::SiToFp => {
            if values.len() >= 1 {
                match ret_type {
                    Ty::F32 => value::convert(values[0], Ty::F32),
                    Ty::F64 => value::convert(values[0], Ty::F64),
                    _ => VALUE::ERROR,
                }
            } else {
                VALUE::ERROR
            }
        },
        OpKind::Trunc => {
            if values.len() >= 1 && matches!(ret_type, Ty::Bool) {
                VALUE::Bool(values[0].as_bool())
            } else {
                VALUE::ERROR
            }
        },
        _ => VALUE::ERROR,
    }
}

/// The reading of one name in a map of variables; an unbound name reads as
/// `ERROR`.
pub open spec fn env_read(m: Map<Seq<char>, VALUE>, name: Seq<char>) -> VALUE {
    if m.contains_key(name) {
        m[name]
    } else {
        VALUE::ERROR
    }
}

/// The capability an environment offers the dispatcher: named reads and
/// writes of simulation values, specified against a map view.
pub trait IsEnv {
    spec fn env_map(&self) -> Map<Seq<char>, VALUE>;

    fn set_value(&mut self, port: &String, val: VALUE)
        ensures
            final(self).env_map() == old(self).env_map().insert(port@, val),
    ;

    fn get_value(&self, port: &String) -> (r: VALUE)
        ensures
            r == env_read(self.env_map(), port@),
    ;

    fn get_all_value(&self, ops: &Vec<String>) -> (r: Vec<VALUE>)
        ensures
            r@.len() == ops@.len(),
            forall|i: int|
                0 <= i < ops@.len() ==> r@[i] == env_read(self.env_map(), (#[trigger] ops@[i])@),
    ;
}

/// A variable environment: names bound to values, viewed as a map.
#[derive(Debug)]
pub struct Env {
    vars: Vec<(String, VALUE)>,
}

impl Env {
    pub closed spec fn view(&self) -> Map<Seq<char>, VALUE> {
        self.vars@.fold_left(
            Map::<Seq<char>, VALUE>::empty(),
            |m: Map<Seq<char>, VALUE>, p: (String, VALUE)| m.insert(p.0@, p.1),
        )
    }

    pub fn new() -> (r: Env)
        ensures
            r@ == Map::<Seq<char>, VALUE>::empty(),
    {
        Env { vars: Vec::new() }
    }
}

proof fn lemma_env_fold_read(vars: Seq<(String, VALUE)>, name: Seq<char>)
    ensures
        ({
            let m = vars.fold_left(
                Map::<Seq<char>, VALUE>::empty(),
                |m: Map<Seq<char>, VALUE>, p: (String, VALUE)| m.insert(p.0@, p.1),
            );
            &&& m.contains_key(name) <==> exists|j: int| 0 <= j < vars.len() && (#[trigger] vars[j]).0@
                == name
            &&& forall|j: int|
                0 <= j < vars.len() && (#[trigger] vars[j]).0@ == name && (forall|k: int|
                    j < k < vars.len() ==> (#[trigger] vars[k]).0@ != name) ==> m.contains_key(name)
                    && m[name] == vars[j].1
        }),
    decreases vars.len(),
{
    if vars.len() > 0 {
        lemma_env_fold_read(vars.drop_last(), name);
        assert(vars.drop_last() =~= vars.subrange(0, vars.len() - 1));
        let m0 = vars.drop_last().fold_left(
            Map::<Seq<char>, VALUE>::empty(),
            |m: Map<Seq<char>, VALUE>, p: (String, VALUE)| m.insert(p.0@, p.1),
        );
        assert(vars.fold_left(
            Map::<Seq<char>, VALUE>::empty(),
            |m: Map<Seq<char>, VALUE>, p: (String, VALUE)| m.insert(p.0@, p.1),
        ) == m0.insert(vars.last().0@, vars.last().1));
        if vars.last().0@ == name {
        } else {
            assert forall|j: int|
                0 <= j < vars.len() - 1 && (#[trigger] vars[j]).0@ == name implies vars.drop_last()[j].0@
                == name by {}
        }
    }
}

impl IsEnv for Env {
    open spec fn env_map(&self) -> Map<Seq<char>, VALUE> {
        self@
    }

    /// Bind a name; a later binding of the same name shadows the earlier.
    fn set_value(&mut self, port: &String, val: VALUE) {
        self.vars.push((port.clone(), val));
        proof {
            assert(self.vars@.drop_last() =~= old(self).vars@);
        }
    }

    /// Read a name, scanning the newest binding first.
    fn get_value(&self, port: &String) -> (r: VALUE) {
        let n = self.vars.len();
        let mut i: usize = n;
        while i > 0
            invariant
                i <= n,
                n == self.vars@.len(),
                forall|k: int| i <= k < n ==> (#[trigger] self.vars@[k]).0@ != port@,
            decreases i,
        {
            i = i - 1;
            if self.vars[i].0 == *port {
                proof {
                    lemma_env_fold_read(self.vars@, port@);
                }
                return self.vars[i].1;
            }
        }
        proof {
            lemma_env_fold_read(self.vars@, port@);
            if self@.contains_key(port@) {
                let j = choose|j: int|
                    0 <= j < self.vars@.len() && (#[trigger] self.vars@[j]).0@ == port@;
                assert(false);
            }
        }
        VALUE::ERROR
    }

    fn get_all_value(&self, ops: &Vec<String>) -> (r: Vec<VALUE>) {
        let mut out: Vec<VALUE> = Vec::new();
        let n = ops.len();
        let mut i: usize = 0;
        while i < n
            invariant
                i <= n,
                n == ops@.len(),
                out@.len() == i,
                forall|k: int|
                    0 <= k < i ==> out@[k] == env_read(self.env_map(), (#[trigger] ops@[k])@),
            decreases n - i,
        {
            let v = self.get_value(&ops[i]);
            out.push(v);
            i = i + 1;
        }
        out
    }
}

/// What one computation stores under its name, given the environment it
/// reads: a `constant` decodes its literal first operand, an `index_cast`
/// copies its operand's value, and every other operator applies the kernel
/// to the fetched operand values.
pub open spec fn spec_operation_result(compute: Computation, m: Map<Seq<char>, VALUE>) -> VALUE {
    match compute.op_type {
        OpKind::Constant => if compute.operands@.len() >= 1 {
            spec_build_value(compute.ret_type, compute.operands@[0]@)
        } else {
            VALUE::ERROR
        },
        OpKind::IndexCast => if compute.operands@.len() >= 1 {
            env_read(m, compute.operands@[0]@)
        } else {
            VALUE::ERROR
        },
        _ => spec_eval(
            compute.op_type,
            compute.ret_type,
            Seq::new(compute.operands@.len(), |i: int| env_read(m, compute.operands@[i]@)),
        ),
    }
}

/// Evaluate one computation against an environment and record the result
/// under the computation's name; see `spec_operation_result`.
pub fn operation_env<E: IsEnv>(compute: &Computation, env: &mut E)
    ensures
        final(env).env_map() == old(env).env_map().insert(
            compute.name@,
            spec_operation_result(*compute, old(env).env_map()),
        ),
{
    match compute.op_type {
        OpKind::Constant => {
            if compute.operands.len() >= 1 {
                let v = build_value(compute.ret_type, compute.operands[0].as_str());
                env.set_value(&compute.name, v);
            } else {
                env.set_value(&compute.name, VALUE::ERROR);
            }
        },
        OpKind::IndexCast => {
            if compute.operands.len() >= 1 {
                let v = env.get_value(&compute.operands[0]);
                env.set_value(&compute.name, v);
            } else {
                env.set_value(&compute.name, VALUE::ERROR);
            }
        },
        _ => {
            let values = env.get_all_value(&compute.operands);
            let r = eval_operation(compute.op_type, compute.ret_type, &values);
            proof {
                assert(values@ =~= Seq::new(
                    compute.operands@.len(),
                    |i: int| env_read(old(env).env_map(), compute.operands@[i]@),
                ));
            }
            env.set_value(&compute.name, r);
        },
    }
}

} // verus!
