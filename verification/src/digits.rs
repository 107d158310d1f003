//! Decimal text for counter values.
//!
//! The shared counter of the demonstration is stored as decimal text and is
//! parsed, incremented and re-serialized on every step.  This module defines
//! what a digit string means (`str_value`), proves that `parse_decimal` and
//! `format_decimal` agree with that meaning, and builds `increment_text`,
//! the whole read-parse-increment-format step, on top of them.

use vstd::prelude::*;

verus! {

/// `c` is one of the ten decimal digit characters.
pub open spec fn is_dec_digit(c: char) -> bool {
    48 <= c as u32 && c as u32 <= 57
}

/// The numeric value of a digit character.
pub open spec fn digit_value(c: char) -> int {
    c as u32 - 48
}

/// Every character of `s` is a decimal digit.
pub open spec fn is_digit_seq(s: Seq<char>) -> bool {
    forall|i: int| 0 <= i < s.len() ==> is_dec_digit(s[i])
}

/// The integer denoted by the digit string `s`, most significant digit
/// first; the empty string denotes zero.
pub open spec fn str_value(s: Seq<char>) -> int
    decreases s.len(),
{
    if s.len() == 0 {
        0
    } else {
        str_value(s.drop_last()) * 10 + digit_value(s.last())
    }
}

/// `s` is the canonical decimal text of a non-negative integer: non-empty,
/// all digits, and without a leading zero unless it is exactly "0".
pub open spec fn is_canonical_dec(s: Seq<char>) -> bool {
    &&& s.len() > 0
    &&& is_digit_seq(s)
    &&& (s.len() > 1 ==> digit_value(s[0]) != 0)
}

/// `s` is digit text whose value fits in an `i32`; exactly the strings
/// accepted by `parse_decimal`.
pub open spec fn parses_to_i32(s: Seq<char>) -> bool {
    &&& s.len() > 0
    &&& is_digit_seq(s)
    &&& str_value(s) <= i32::MAX
}

/// Appending a digit multiplies the value by ten and adds that digit.
pub proof fn lemma_str_value_push(s: Seq<char>, c: char)
    ensures
        str_value(s.push(c)) == str_value(s) * 10 + digit_value(c),
{
    assert(s.push(c).drop_last() =~= s);
    assert(s.push(c).last() == c);
}

/// `str_value` of one more character of `s`, phrased over prefixes.
pub proof fn lemma_str_value_snoc(s: Seq<char>, i: int)
    requires
        0 <= i < s.len(),
    ensures
        str_value(s.take(i + 1)) == str_value(s.take(i)) * 10 + digit_value(s[i]),
{
    assert(s.take(i + 1).drop_last() =~= s.take(i));
    assert(s.take(i + 1).last() == s[i]);
}

/// A digit string never denotes a negative number.
pub proof fn lemma_str_value_nonneg(s: Seq<char>)
    requires
        is_digit_seq(s),
    ensures
        str_value(s) >= 0,
    decreases s.len(),
{
    if s.len() > 0 {
        assert forall|i: int| 0 <= i < s.drop_last().len() implies is_dec_digit(
            s.drop_last()[i],
        ) by {
            assert(s.drop_last()[i] == s[i]);
        }
        lemma_str_value_nonneg(s.drop_last());
        assert(is_dec_digit(s.last()));
    }
}

/// A prefix of a digit string never denotes more than the whole string.
pub proof fn lemma_str_value_take_le(s: Seq<char>, k: int)
    requires
        is_digit_seq(s),
        0 <= k <= s.len(),
    ensures
        str_value(s.take(k)) <= str_value(s),
    decreases s.len() - k,
{
    if k == s.len() {
        assert(s.take(k) =~= s);
    } else {
        assert forall|j: int| 0 <= j < s.take(k).len() implies is_dec_digit(s.take(k)[j]) by {
            assert(s.take(k)[j] == s[j]);
        }
        lemma_str_value_nonneg(s.take(k));
        lemma_str_value_snoc(s, k);
        lemma_str_value_take_le(s, k + 1);
    }
}

/// The one-character text of the digit `d`.
fn digit_str(d: u8) -> (r: &'static str)
    requires
        d < 10,
    ensures
        r@.len() == 1,
        is_dec_digit(r@[0]),
        digit_value(r@[0]) == d as int,
{
    match d {
        0 => {
            proof {
                reveal_strlit("0");
            }
            "0"
        },
        1 => {
            proof {
                reveal_strlit("1");
            }
            "1"
        },
        2 => {
            proof {
                reveal_strlit("2");
            }
            "2"
        },
        3 => {
            proof {
                reveal_strlit("3");
            }
            "3"
        },
        4 => {
            proof {
                reveal_strlit("4");
            }
            "4"
        },
        5 => {
            proof {
                reveal_strlit("5");
            }
            "5"
        },
        6 => {
            proof {
                reveal_strlit("6");
            }
            "6"
        },
        7 => {
            proof {
                reveal_strlit("7");
            }
            "7"
        },
        8 => {
            proof {
                reveal_strlit("8");
            }
            "8"
        },
        _ => {
            proof {
                reveal_strlit("9");
            }
            "9"
        },
    }
}

/// Parse non-negative decimal text as an `i32`: succeeds exactly on
/// non-empty all-digit strings whose value fits, and then returns that
/// value.
pub fn parse_decimal(s: &str) -> (r: Option<i32>)
    ensures
        r is Some <==> parses_to_i32(s@),
        r is Some ==> 0 <= r->0 && r->0 as int == str_value(s@),
{
    let len = s.unicode_len();
    if len == 0 {
        return None;
    }
    let mut acc: i32 = 0;
    let mut i: usize = 0;
    while i < len
        invariant
            0 <= i <= len,
            len == s@.len(),
            is_digit_seq(s@.take(i as int)),
            acc as int == str_value(s@.take(i as int)),
            0 <= acc,
        decreases len - i,
    {
        let c = s.get_char(i);
        let u = c as u32;
        if u < 48 || u > 57 {
            proof {
                assert(!is_dec_digit(s@[i as int]));
            }
            return None;
        }
        let d: i32 = (u - 48) as i32;
        let wide: i64 = (acc as i64) * 10 + (d as i64);
        if wide > i32::MAX as i64 {
            proof {
                lemma_str_value_snoc(s@, i as int);
                if is_digit_seq(s@) {
                    lemma_str_value_take_le(s@, i as int + 1);
                }
            }
            return None;
        }
        proof {
            lemma_str_value_snoc(s@, i as int);
            assert forall|j: int| 0 <= j < i as int + 1 implies is_dec_digit(
                #[trigger] s@.take(i as int + 1)[j],
            ) by {
                assert(s@.take(i as int + 1)[j] == s@[j]);
            }
        }
        acc = acc * 10 + d;
        i = i + 1;
    }
    proof {
        assert(s@.take(len as int) =~= s@);
    }
    Some(acc)
}

/// Format a non-negative `i32` as canonical decimal text.
pub fn format_decimal(n: i32) -> (r: String)
    requires
        n >= 0,
    ensures
        is_canonical_dec(r@),
        str_value(r@) == n as int,
    decreases n,
{
    if n < 10 {
        let r = String::from_str(digit_str(n as u8));
        proof {
            reveal_with_fuel(str_value, 2);
            assert(r@.drop_last() =~= Seq::<char>::empty());
            assert(r@.last() == r@[0]);
        }
        r
    } else {
        let mut s = format_decimal(n / 10);
        let ghost sub = s@;
        let d = digit_str((n % 10) as u8);
        s.append(d);
        proof {
            reveal_with_fuel(str_value, 2);
            assert(s@ =~= sub.push(d@[0]));
            lemma_str_value_push(sub, d@[0]);
            vstd::arithmetic::div_mod::lemma_fundamental_div_mod(n as int, 10);
            if sub.len() == 1 {
                assert(sub.drop_last() =~= Seq::<char>::empty());
                assert(sub.last() == sub[0]);
            }
            assert(s@[0] == sub[0]);
            assert forall|j: int| 0 <= j < s@.len() implies is_dec_digit(#[trigger] s@[j]) by {
                if j < sub.len() {
                    assert(s@[j] == sub[j]);
                } else {
                    assert(s@[j] == d@[0]);
                }
            }
        }
        s
    }
}

/// One full step of the counter: parse the text, add one, re-serialize.
/// Returns `None` when the text is not a decimal number an `i32` can hold,
/// or when the value cannot be incremented without leaving `i32`.
pub fn increment_text(s: &str) -> (r: Option<String>)
    ensures
        r is Some <==> parses_to_i32(s@) && str_value(s@) < i32::MAX,
        r is Some ==> is_canonical_dec(r->0@) && str_value(r->0@) == str_value(s@) + 1,
{
    match parse_decimal(s) {
        Some(n) => {
            if n < i32::MAX {
                Some(format_decimal(n + 1))
            } else {
                None
            }
        },
        None => None,
    }
}

} // verus!
