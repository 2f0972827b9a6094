//! Verified decimal reading and writing of 64-bit signed integers, and
//! the exact semantics of the four arithmetic operators over them.

use vstd::prelude::*;

use crate::error::EvaluateError;

verus! {

/// The four arithmetic operators of the algebra.
#[derive(Clone, Copy, Debug, PartialEq, Eq, Structural)]
pub enum ArithOp {
    Add,
    Subtract,
    Multiply,
    Divide,
}

/// The result if it exists in 64-bit signed range, overflow otherwise:
/// the algebra reports overflow, never wraps or saturates.
pub open spec fn in_i64_range(v: int) -> Result<i64, EvaluateError> {
    if i64::MIN <= v <= i64::MAX {
        Ok(v as i64)
    } else {
        Err(EvaluateError::NumericOverflow)
    }
}

/// Integer division truncating toward zero, the division the typed and
/// literal domains share.
pub open spec fn div_toward_zero(a: int, b: int) -> int
    recommends
        b != 0,
{
    if a == 0 {
        0
    } else if (a > 0) == (b > 0) {
        (vstd::math::abs(a) / vstd::math::abs(b)) as int
    } else {
        -((vstd::math::abs(a) / vstd::math::abs(b)) as int)
    }
}

/// What one arithmetic operator means on two 64-bit integers: the exact
/// result, or division by zero, or overflow.
pub open spec fn i64_arith(op: ArithOp, a: i64, b: i64) -> Result<i64, EvaluateError> {
    match op {
        ArithOp::Add => in_i64_range(a + b),
        ArithOp::Subtract => in_i64_range(a - b),
        ArithOp::Multiply => in_i64_range(a * b),
        ArithOp::Divide => if b == 0 {
            Err(EvaluateError::DivisionByZero)
        } else {
            in_i64_range(div_toward_zero(a as int, b as int))
        },
    }
}

/// Apply one arithmetic operator to two 64-bit integers.
pub fn apply_i64(op: ArithOp, a: i64, b: i64) -> (r: Result<i64, EvaluateError>)
    ensures
        r == i64_arith(op, a, b),
{
    match op {
        ArithOp::Add => match a.checked_add(b) {
            Some(v) => Ok(v),
            None => Err(EvaluateError::NumericOverflow),
        },
        ArithOp::Subtract => match a.checked_sub(b) {
            Some(v) => Ok(v),
            None => Err(EvaluateError::NumericOverflow),
        },
        ArithOp::Multiply => match a.checked_mul(b) {
            Some(v) => Ok(v),
            None => Err(EvaluateError::NumericOverflow),
        },
        ArithOp::Divide => if b == 0 {
            Err(EvaluateError::DivisionByZero)
        } else {
            match a.checked_div(b) {
                Some(v) => Ok(v),
                None => Err(EvaluateError::NumericOverflow),
            }
        },
    }
}

/// Is `c` an ASCII decimal digit?
pub open spec fn is_digit(c: char) -> bool {
    48 <= c as int <= 57
}

/// The numeric value of an ASCII decimal digit.
pub open spec fn digit_val(c: char) -> int {
    c as int - 48
}

/// Every character of `s` is a decimal digit.
pub open spec fn all_digits(s: Seq<char>) -> bool {
    forall|i: int| 0 <= i < s.len() ==> is_digit(#[trigger] s[i])
}

/// The value of a digit string read most-significant first.
pub open spec fn digits_val(s: Seq<char>) -> int
    decreases s.len(),
{
    if s.len() == 0 {
        0
    } else {
        digits_val(s.drop_last()) * 10 + digit_val(s.last())
    }
}

/// The meaning of decimal text as a 64-bit signed integer: an optional
/// sign followed by one or more digits, whose value lies in range.
/// Anything else — empty text, a stray character, a value out of range —
/// has no meaning here.
pub open spec fn parse_i64(s: Seq<char>) -> Option<i64> {
    let signed = s.len() > 0 && (s[0] == '-' || s[0] == '+');
    let digits = if signed {
        s.subrange(1, s.len() as int)
    } else {
        s
    };
    if digits.len() > 0 && all_digits(digits) {
        let magnitude = digits_val(digits);
        let v = if signed && s[0] == '-' {
            -magnitude
        } else {
            magnitude
        };
        if i64::MIN <= v <= i64::MAX {
            Some(v as i64)
        } else {
            None
        }
    } else {
        None
    }
}

/// The digit character of a value below ten.
pub open spec fn digit_char(d: int) -> char {
    if d == 0 {
        '0'
    } else if d == 1 {
        '1'
    } else if d == 2 {
        '2'
    } else if d == 3 {
        '3'
    } else if d == 4 {
        '4'
    } else if d == 5 {
        '5'
    } else if d == 6 {
        '6'
    } else if d == 7 {
        '7'
    } else if d == 8 {
        '8'
    } else {
        '9'
    }
}

/// The canonical digit string of a non-negative value: no leading
/// zeroes except for the value zero itself.
pub open spec fn u_dec(v: nat) -> Seq<char>
    decreases v,
{
    if v < 10 {
        seq![digit_char(v as int)]
    } else {
        u_dec(v / 10).push(digit_char((v % 10) as int))
    }
}

/// The canonical decimal text of a signed value: a leading minus sign
/// for negative values, then the digit string of the magnitude.
pub open spec fn i64_dec(v: int) -> Seq<char> {
    if v < 0 {
        seq!['-'] + u_dec((-v) as nat)
    } else {
        u_dec(v as nat)
    }
}

/// A digit string never denotes a negative value.
pub proof fn lemma_digits_val_nonneg(s: Seq<char>)
    requires
        all_digits(s),
    ensures
        digits_val(s) >= 0,
    decreases s.len(),
{
    if s.len() > 0 {
        lemma_digits_val_nonneg(s.drop_last());
    }
}

/// Dropping trailing digits never increases the value.
pub proof fn lemma_digits_val_prefix(s: Seq<char>, k: int)
    requires
        all_digits(s),
        0 <= k <= s.len(),
    ensures
        digits_val(s.subrange(0, k)) <= digits_val(s),
    decreases s.len() - k,
{
    if k < s.len() {
        let t = s.subrange(0, k + 1);
        lemma_digits_val_prefix(s, k + 1);
        assert(t.drop_last() =~= s.subrange(0, k));
        lemma_digits_val_nonneg(t.drop_last());
        assert(digits_val(t.drop_last()) * 10 >= digits_val(t.drop_last()));
    } else {
        assert(s.subrange(0, k) =~= s);
    }
}

/// Read `s` as a 64-bit signed integer, succeeding exactly when
/// [`parse_i64`] gives its text a meaning.
pub fn str_to_i64(s: &str) -> (r: Option<i64>)
    ensures
        r == parse_i64(s@),
{
    let n: usize = s.unicode_len();
    if n == 0 {
        return None;
    }
    let first: char = s.get_char(0);
    let neg: bool = first == '-';
    let signed: bool = neg || first == '+';
    let start: usize = if signed {
        1
    } else {
        0
    };
    let ghost digits: Seq<char> = if signed {
        s@.subrange(1, n as int)
    } else {
        s@
    };
    if start == n {
        // a sign with nothing after it
        return None;
    }
    let limit: u64 = if neg {
        9223372036854775808u64
    } else {
        9223372036854775807u64
    };
    let mut acc: u64 = 0;
    let mut i: usize = start;
    while i < n
        invariant
            start <= i <= n,
            n == s@.len(),
            n > start,
            signed == (s@[0] == '-' || s@[0] == '+'),
            neg == (s@[0] == '-'),
            start == if signed { 1int } else { 0int },
            digits == if signed { s@.subrange(1, n as int) } else { s@ },
            digits.len() == n - start,
            forall|j: int| 0 <= j < i - start ==> is_digit(#[trigger] digits[j]),
            acc == digits_val(digits.subrange(0, i - start)),
            acc <= limit,
            limit == if neg { 9223372036854775808u64 } else { 9223372036854775807u64 },
        decreases n - i,
    {
        let c: char = s.get_char(i);
        let cv: u32 = c as u32;
        proof {
            assert(digits[i - start] == s@[i as int]);
        }
        if cv < 48 || cv > 57 {
            proof {
                assert(!is_digit(digits[i - start]));
            }
            return None;
        }
        let d: u64 = (cv - 48) as u64;
        let ghost k: int = i - start + 1;
        proof {
            assert(digits.subrange(0, k).drop_last() =~= digits.subrange(0, i - start));
            assert(digits_val(digits.subrange(0, k)) == acc * 10 + d);
        }
        if acc > (limit - d) / 10 {
            proof {
                let l: int = (limit - d) as int;
                assert(l == (l / 10) * 10 + l % 10 && 0 <= l % 10 < 10) by (nonlinear_arith)
                    requires
                        l >= 0,
                ;
                assert(acc * 10 > l) by (nonlinear_arith)
                    requires
                        acc as int >= l / 10 + 1,
                        l == (l / 10) * 10 + l % 10,
                        0 <= l % 10 < 10,
                ;
                if all_digits(digits) {
                    lemma_digits_val_prefix(digits, k);
                    assert(digits_val(digits) > limit);
                }
            }
            return None;
        }
        proof {
            let l: int = (limit - d) as int;
            assert(l == (l / 10) * 10 + l % 10 && 0 <= l % 10 < 10) by (nonlinear_arith)
                requires
                    l >= 0,
            ;
            assert(acc * 10 <= (l / 10) * 10) by (nonlinear_arith)
                requires
                    acc as int <= l / 10,
            ;
        }
        acc = acc * 10 + d;
        i = i + 1;
    }
    proof {
        assert(digits.subrange(0, n - start) =~= digits);
        lemma_digits_val_nonneg(digits);
    }
    if neg {
        if acc == 9223372036854775808u64 {
            Some(i64::MIN)
        } else {
            Some(-(acc as i64))
        }
    } else {
        Some(acc as i64)
    }
}

/// The one-character text of a decimal digit.
fn digit_str(d: u64) -> (r: &'static str)
    requires
        d < 10,
    ensures
        r@ == seq![digit_char(d as int)],
{
    proof {
        reveal_strlit("0");
        reveal_strlit("1");
        reveal_strlit("2");
        reveal_strlit("3");
        reveal_strlit("4");
        reveal_strlit("5");
        reveal_strlit("6");
        reveal_strlit("7");
        reveal_strlit("8");
        reveal_strlit("9");
        assert("0"@ =~= seq![digit_char(0)]);
        assert("1"@ =~= seq![digit_char(1)]);
        assert("2"@ =~= seq![digit_char(2)]);
        assert("3"@ =~= seq![digit_char(3)]);
        assert("4"@ =~= seq![digit_char(4)]);
        assert("5"@ =~= seq![digit_char(5)]);
        assert("6"@ =~= seq![digit_char(6)]);
        assert("7"@ =~= seq![digit_char(7)]);
        assert("8"@ =~= seq![digit_char(8)]);
        assert("9"@ =~= seq![digit_char(9)]);
    }
    if d == 0 {
        "0"
    } else if d == 1 {
        "1"
    } else if d == 2 {
        "2"
    } else if d == 3 {
        "3"
    } else if d == 4 {
        "4"
    } else if d == 5 {
        "5"
    } else if d == 6 {
        "6"
    } else if d == 7 {
        "7"
    } else if d == 8 {
        "8"
    } else {
        "9"
    }
}

/// Write a non-negative value as its canonical digit string.
pub fn u64_to_text(v: u64) -> (r: String)
    ensures
        r@ == u_dec(v as nat),
{
    if v == 0 {
        proof {
            reveal_strlit("0");
            assert("0"@ =~= u_dec(0));
        }
        return "0".to_owned();
    }
    let mut out: String = String::new();
    let mut rem: u64 = v;
    proof {
        assert(u_dec(v as nat) + out@ =~= u_dec(v as nat));
    }
    while rem > 0
        invariant
            rem > 0 ==> u_dec(v as nat) == u_dec(rem as nat) + out@,
            rem == 0 ==> u_dec(v as nat) == out@,
        decreases rem,
    {
        let d: u64 = rem % 10;
        let piece: String = digit_str(d).to_owned();
        let appended: String = piece.concat(out.as_str());
        proof {
            if rem >= 10 {
                assert(u_dec(rem as nat) == u_dec((rem / 10) as nat).push(digit_char(d as int)));
                assert(u_dec((rem / 10) as nat).push(digit_char(d as int)) + out@ =~= u_dec(
                    (rem / 10) as nat,
                ) + (seq![digit_char(d as int)] + out@));
            } else {
                assert(u_dec(rem as nat) =~= seq![digit_char(d as int)]);
            }
        }
        out = appended;
        rem = rem / 10;
    }
    out
}

/// Write a signed value as its canonical decimal text.
pub fn i64_to_text(v: i64) -> (r: String)
    ensures
        r@ == i64_dec(v as int),
{
    if v >= 0 {
        u64_to_text(v as u64)
    } else {
        let mag: u64 = if v == i64::MIN {
            9223372036854775808u64
        } else {
            (-v) as u64
        };
        let body: String = u64_to_text(mag);
        proof {
            reveal_strlit("-");
            assert("-"@ =~= seq!['-']);
        }
        let signed_text: String = "-".to_owned().concat(body.as_str());
        proof {
            assert(signed_text@ =~= seq!['-'] + u_dec((-(v as int)) as nat));
        }
        signed_text
    }
}

} // verus!
