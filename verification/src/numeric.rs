//! Decimal encoding and parsing of 128-bit unsigned amounts.
//!
//! Later protocol versions carry balances, nonces and deposits as decimal
//! strings on the wire and inside the signable payload.  This module pins
//! both directions down exactly: `dec_chars` is the canonical rendering of
//! a value and `parse_dec` is the meaning of a decimal string.

use vstd::prelude::*;
use vstd::string::StringExecFns;

use crate::errors::CoreError;

verus! {

/// A decimal digit character, `'0'` through `'9'`.
pub open spec fn is_dec_digit(c: char) -> bool {
    48 <= c as u32 <= 57
}

/// Every character of `s` is a decimal digit.
pub open spec fn all_dec_digits(s: Seq<char>) -> bool {
    forall|i: int| 0 <= i < s.len() ==> is_dec_digit(#[trigger] s[i])
}

/// The numeric value of a digit character.
pub open spec fn dec_digit_val(c: char) -> int {
    c as u32 - 48
}

/// The value of a digit string, most significant digit first.
pub open spec fn dec_val(s: Seq<char>) -> int
    decreases s.len(),
{
    if s.len() == 0 {
        0
    } else {
        dec_val(s.drop_last()) * 10 + dec_digit_val(s.last())
    }
}

/// The digit character for a value in `0..10`.
pub open spec fn dec_digit_char(d: int) -> char {
    if d == 0 {
        '0'
    } else if d == 1 {
        '1'
    } else if d == 2 {
        '2'
    } else if d == 3 {
        '3'
    } else if d == 4 {
        '4'
    } else if d == 5 {
        '5'
    } else if d == 6 {
        '6'
    } else if d == 7 {
        '7'
    } else if d == 8 {
        '8'
    } else {
        '9'
    }
}

/// The canonical decimal rendering of `v`: no sign, no leading zeros,
/// and `"0"` for zero.
pub open spec fn dec_chars(v: nat) -> Seq<char>
    decreases v,
{
    if v < 10 {
        seq![dec_digit_char(v as int)]
    } else {
        dec_chars(v / 10) + seq![dec_digit_char((v % 10) as int)]
    }
}

/// What a decimal wire string denotes: `Some(value)` exactly when the
/// string is non-empty, holds only digit characters, and its value fits
/// in 128 unsigned bits; `None` otherwise.
pub open spec fn parse_dec(s: Seq<char>) -> Option<u128> {
    if s.len() > 0 && all_dec_digits(s) && dec_val(s) <= u128::MAX {
        Some((dec_val(s) as u128))
    } else {
        None
    }
}

/// A prefix of an all-digit string is all digits.
proof fn lemma_all_digits_take(s: Seq<char>, i: int)
    requires
        0 <= i <= s.len(),
        all_dec_digits(s),
    ensures
        all_dec_digits(s.take(i)),
{
    assert forall|j: int| 0 <= j < s.take(i).len() implies is_dec_digit(#[trigger] s.take(i)[j]) by {
        assert(s.take(i)[j] == s[j]);
    }
}

/// A digit string denotes a non-negative value.
proof fn lemma_dec_val_nonneg(s: Seq<char>)
    requires
        all_dec_digits(s),
    ensures
        dec_val(s) >= 0,
    decreases s.len(),
{
    if s.len() > 0 {
        assert(all_dec_digits(s.drop_last())) by {
            assert(forall|j: int|
                0 <= j < s.len() - 1 ==> #[trigger] s.drop_last()[j] == s[j]);
        }
        lemma_dec_val_nonneg(s.drop_last());
    }
}

/// Extending an all-digit string never shrinks its value.
proof fn lemma_dec_val_take_grows(s: Seq<char>, i: int)
    requires
        0 <= i <= s.len(),
        all_dec_digits(s),
    ensures
        dec_val(s.take(i)) <= dec_val(s),
    decreases s.len() - i,
{
    if i == s.len() {
        assert(s.take(i) =~= s);
    } else {
        assert(s.take(i + 1).drop_last() =~= s.take(i));
        assert(s.take(i + 1).last() == s[i]);
        lemma_all_digits_take(s, i);
        lemma_dec_val_nonneg(s.take(i));
        lemma_dec_val_take_grows(s, i + 1);
    }
}

/// Every character of a canonical rendering is a digit.
pub proof fn lemma_dec_chars_all_digits(v: nat)
    ensures
        dec_chars(v).len() >= 1,
        all_dec_digits(dec_chars(v)),
    decreases v,
{
    if v >= 10 {
        lemma_dec_chars_all_digits(v / 10);
    }
}

/// The canonical rendering of `v` denotes `v`.
proof fn lemma_dec_val_of_dec_chars(v: nat)
    ensures
        dec_val(dec_chars(v)) == v,
    decreases v,
{
    if v < 10 {
        assert(dec_val(seq![dec_digit_char(v as int)].drop_last()) == 0);
    } else {
        lemma_dec_val_of_dec_chars(v / 10);
        let tail = seq![dec_digit_char((v % 10) as int)];
        assert((dec_chars(v / 10) + tail).drop_last() =~= dec_chars(v / 10));
        assert((dec_chars(v / 10) + tail).last() == dec_digit_char((v % 10) as int));
        vstd::arithmetic::div_mod::lemma_fundamental_div_mod(v as int, 10);
    }
}

/// Numeric fidelity, encoding direction: rendering any 128-bit value as a
/// decimal string and parsing it back yields the value unchanged.  This
/// holds for the boundary values `0` and `u128::MAX` in particular.
pub proof fn lemma_decimal_round_trip(v: u128)
    ensures
        parse_dec(dec_chars(v as nat)) == Some(v),
{
    lemma_dec_chars_all_digits(v as nat);
    lemma_dec_val_of_dec_chars(v as nat);
}

/// Numeric fidelity, rejection direction: the empty string, a string
/// with any non-digit character (a sign, whitespace, a letter, anywhere
/// in the string), and an all-digit string whose value exceeds the
/// 128-bit range all parse to nothing.
pub proof fn lemma_non_decimal_strings_rejected(s: Seq<char>)
    ensures
        s.len() == 0 ==> parse_dec(s) is None,
        (exists|i: int| 0 <= i < s.len() && !is_dec_digit(s[i])) ==> parse_dec(s) is None,
        all_dec_digits(s) && dec_val(s) > u128::MAX ==> parse_dec(s) is None,
{
}

/// Appends the digit character for a value in `0..10` to `out`.
fn append_digit(d: u128, out: &mut String)
    requires
        d < 10,
    ensures
        final(out)@ == old(out)@ + seq![dec_digit_char(d as int)],
{
    if d == 0 {
        out.append("0");
        proof {
            reveal_strlit("0");
            assert("0"@ =~= seq!['0']);
        }
    } else if d == 1 {
        out.append("1");
        proof {
            reveal_strlit("1");
            assert("1"@ =~= seq!['1']);
        }
    } else if d == 2 {
        out.append("2");
        proof {
            reveal_strlit("2");
            assert("2"@ =~= seq!['2']);
        }
    } else if d == 3 {
        out.append("3");
        proof {
            reveal_strlit("3");
            assert("3"@ =~= seq!['3']);
        }
    } else if d == 4 {
        out.append("4");
        proof {
            reveal_strlit("4");
            assert("4"@ =~= seq!['4']);
        }
    } else if d == 5 {
        out.append("5");
        proof {
            reveal_strlit("5");
            assert("5"@ =~= seq!['5']);
        }
    } else if d == 6 {
        out.append("6");
        proof {
            reveal_strlit("6");
            assert("6"@ =~= seq!['6']);
        }
    } else if d == 7 {
        out.append("7");
        proof {
            reveal_strlit("7");
            assert("7"@ =~= seq!['7']);
        }
    } else if d == 8 {
        out.append("8");
        proof {
            reveal_strlit("8");
            assert("8"@ =~= seq!['8']);
        }
    } else {
        out.append("9");
        proof {
            reveal_strlit("9");
            assert("9"@ =~= seq!['9']);
        }
    }
}

/// Appends the decimal digits of `v` to `out`.
fn push_dec_digits(v: u128, out: &mut String)
    ensures
        final(out)@ == old(out)@ + dec_chars(v as nat),
    decreases v,
{
    if v >= 10 {
        push_dec_digits(v / 10, out);
        append_digit(v % 10, out);
        proof {
            assert(old(out)@ + dec_chars((v / 10) as nat) + seq![dec_digit_char((v % 10) as int)]
                =~= old(out)@ + dec_chars(v as nat));
        }
    } else {
        append_digit(v, out);
    }
}

/// Renders `v` as its canonical decimal string.
pub fn u128_to_decimal(v: u128) -> (r: String)
    ensures
        r@ == dec_chars(v as nat),
{
    let mut out = String::new();
    push_dec_digits(v, &mut out);
    proof {
        assert(Seq::<char>::empty() + dec_chars(v as nat) =~= dec_chars(v as nat));
    }
    out
}

/// Parses a decimal wire string into a 128-bit unsigned value.
///
/// Succeeds exactly on the strings that `parse_dec` accepts; anything
/// else (empty, a non-digit character anywhere, or 128-bit overflow) is
/// an `InvalidNumericEncoding` failure.
pub fn parse_u128_decimal(s: &str) -> (r: Result<u128, CoreError>)
    ensures
        match parse_dec(s@) {
            Some(v) => r == Ok::<u128, CoreError>(v),
            None => r == Err::<u128, CoreError>(CoreError::InvalidNumericEncoding),
        },
{
    let n = s.unicode_len();
    if n == 0 {
        return Err(CoreError::InvalidNumericEncoding);
    }
    let mut acc: u128 = 0;
    let mut i: usize = 0;
    proof {
        assert(s@.take(0) =~= Seq::<char>::empty());
    }
    while i < n
        invariant
            n == s@.len(),
            0 < n,
            0 <= i <= n,
            all_dec_digits(s@.take(i as int)),
            acc == dec_val(s@.take(i as int)),
        decreases n - i,
    {
        let c = s.get_char(i);
        let u = c as u32;
        if u < 48 || u > 57 {
            proof {
                assert(!is_dec_digit(s@[i as int]));
            }
            return Err(CoreError::InvalidNumericEncoding);
        }
        let d: u128 = (u - 48) as u128;
        proof {
            assert(s@.take(i + 1).drop_last() =~= s@.take(i as int));
            assert(s@.take(i + 1).last() == s@[i as int]);
            lemma_dec_val_nonneg(s@.take(i as int));
            assert forall|j: int| 0 <= j < i + 1 implies is_dec_digit(#[trigger] s@.take(i + 1)[j]) by {
                assert(s@.take(i + 1)[j] == s@[j]);
                if j < i {
                    assert(s@.take(i as int)[j] == s@[j]);
                }
            }
        }
        let m = match acc.checked_mul(10) {
            Some(m) => m,
            None => {
                proof {
                    overflow_means_unparseable(s@, i as int, acc, d);
                }
                return Err(CoreError::InvalidNumericEncoding);
            },
        };
        let acc2 = match m.checked_add(d) {
            Some(a) => a,
            None => {
                proof {
                    overflow_means_unparseable(s@, i as int, acc, d);
                }
                return Err(CoreError::InvalidNumericEncoding);
            },
        };
        acc = acc2;
        i = i + 1;
    }
    proof {
        assert(s@.take(n as int) =~= s@);
    }
    Ok(acc)
}

/// If the digits seen so far already exceed the 128-bit range once the
/// next digit is appended, no suffix can make the whole string parseable.
proof fn overflow_means_unparseable(s: Seq<char>, i: int, acc: u128, d: u128)
    requires
        0 <= i < s.len(),
        all_dec_digits(s.take(i)),
        is_dec_digit(s[i]),
        d == dec_digit_val(s[i]),
        acc == dec_val(s.take(i)),
        acc * 10 + d > u128::MAX,
    ensures
        parse_dec(s) is None,
{
    if all_dec_digits(s) {
        assert(s.take(i + 1).drop_last() =~= s.take(i));
        assert(s.take(i + 1).last() == s[i]);
        assert(dec_val(s.take(i + 1)) == acc * 10 + d);
        lemma_dec_val_take_grows(s, i + 1);
    }
}

} // verus!
