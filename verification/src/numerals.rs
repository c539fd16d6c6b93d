//! Decimal numerals: parsing the locale argument and rendering a locale
//! identifier for printing.
//!
//! A locale argument is a signed decimal numeral: an optional `+` or `-`
//! followed by at least one ASCII digit and nothing else, denoting a value
//! that fits the locale type. A locale identifier is printed as the plain
//! decimal numeral of its (non-negative) value.

use vstd::prelude::*;

verus! {

/// An ASCII decimal digit.
pub open spec fn is_dec_digit(c: char) -> bool {
    48 <= c as int && c as int <= 57
}

/// The numeric value of one decimal digit character.
pub open spec fn digit_value(c: char) -> int {
    c as int - 48
}

/// Every character of the sequence is a decimal digit.
pub open spec fn all_dec_digits(s: Seq<char>) -> bool {
    forall|i: int| 0 <= i < s.len() ==> is_dec_digit(#[trigger] s[i])
}

/// The value of a sequence of decimal digits, most significant first.
pub open spec fn digits_value(s: Seq<char>) -> int
    decreases s.len(),
{
    if s.len() == 0 {
        0
    } else {
        digits_value(s.drop_last()) * 10 + digit_value(s.last())
    }
}

/// The digit portion of a signed numeral: what follows the optional sign.
pub open spec fn numeral_digits(s: Seq<char>) -> Seq<char> {
    if s.len() > 0 && (s[0] == '+' || s[0] == '-') {
        s.subrange(1, s.len() as int)
    } else {
        s
    }
}

/// Whether the text is a well-formed signed decimal numeral: an optional
/// leading sign followed by at least one decimal digit and nothing else.
pub open spec fn is_signed_numeral(s: Seq<char>) -> bool {
    numeral_digits(s).len() > 0 && all_dec_digits(numeral_digits(s))
}

/// The integer a well-formed signed numeral denotes.
pub open spec fn numeral_value(s: Seq<char>) -> int {
    if s.len() > 0 && s[0] == '-' {
        -digits_value(numeral_digits(s))
    } else {
        digits_value(numeral_digits(s))
    }
}

/// A digit sequence denotes a non-negative value, and appending digits never
/// shrinks it.
proof fn lemma_digits_value_nonneg(s: Seq<char>)
    requires
        all_dec_digits(s),
    ensures
        digits_value(s) >= 0,
    decreases s.len(),
{
    if s.len() > 0 {
        assert(all_dec_digits(s.drop_last())) by {
            assert(forall|i: int|
                0 <= i < s.len() - 1 ==> #[trigger] s.drop_last()[i] == s[i]);
        }
        lemma_digits_value_nonneg(s.drop_last());
    }
}

/// Parses a signed decimal numeral. Returns the denoted value exactly when
/// the text is well formed and the value fits the locale type; returns
/// nothing otherwise.
pub fn parse_locale(s: &str) -> (r: Option<i64>)
    ensures
        r is Some <==> is_signed_numeral(s@) && i64::MIN <= numeral_value(s@) <= i64::MAX,
        r is Some ==> r->0 as int == numeral_value(s@),
{
    let n = s.unicode_len();
    let mut i: usize = 0;
    let mut negative = false;
    if n > 0 {
        let c0 = s.get_char(0);
        if c0 == '-' {
            negative = true;
            i = 1;
        } else if c0 == '+' {
            i = 1;
        }
    }
    if i >= n {
        // Empty text, or a sign with no digits after it.
        assert(numeral_digits(s@).len() == 0);
        return None;
    }
    let ghost start = i as int;
    let ghost digits = s@.subrange(start, n as int);
    assert(digits =~= numeral_digits(s@));
    let mut magnitude: u64 = 0;
    let mut too_big = false;
    proof {
        assert(s@.subrange(start, start) =~= Seq::<char>::empty());
        assert(digits_value(Seq::<char>::empty()) == 0);
    }
    while i < n
        invariant
            n as int == s@.len(),
            0 <= start <= i as int <= n as int,
            start < n as int,
            digits == s@.subrange(start, n as int),
            digits == numeral_digits(s@),
            negative <==> (s@.len() > 0 && s@[0] == '-'),
            all_dec_digits(s@.subrange(start, i as int)),
            !too_big ==> magnitude <= 0x8000000000000000u64 && magnitude as int
                == digits_value(s@.subrange(start, i as int)),
            too_big ==> digits_value(s@.subrange(start, i as int)) > 0x8000000000000000,
        decreases n - i,
    {
        let c = s.get_char(i);
        let u = c as u32;
        let ghost prefix = s@.subrange(start, i as int);
        assert(c as int == u as int);
        assert(digits[i as int - start] == s@[i as int]) by {
            assert(s@.subrange(start, n as int)[i as int - start] == s@[start + (i as int
                - start)]);
        }
        if u < 48 || u > 57 {
            assert(!is_dec_digit(digits[i as int - start]));
            return None;
        }
        let d = (u - 48) as u64;
        assert(is_dec_digit(s@[i as int]) && d as int == digit_value(s@[i as int]));
        let ghost extended = s@.subrange(start, i as int + 1);
        assert(extended.drop_last() =~= prefix);
        assert(extended.last() == s@[i as int]);
        assert(all_dec_digits(extended)) by {
            assert(forall|j: int|
                0 <= j < extended.len() ==> #[trigger] extended[j] == s@[start + j]);
        }
        assert(digits_value(extended) == digits_value(prefix) * 10 + d);
        if too_big {
            proof {
                assert(digits_value(extended) > 0x8000000000000000);
            }
        } else if magnitude > 922337203685477580u64 || (magnitude == 922337203685477580u64
            && d > 8) {
            too_big = true;
            assert(digits_value(extended) > 0x8000000000000000);
        } else {
            assert(magnitude * 10 + d <= 0x8000000000000000) by {
                assert(magnitude <= 922337203685477580u64);
                assert(d <= 9);
            }
            magnitude = magnitude * 10 + d;
        }
        i = i + 1;
    }
    assert(s@.subrange(start, i as int) == digits);
    assert(is_signed_numeral(s@));
    if too_big {
        // The magnitude exceeds 2^63, so the value lies outside the locale
        // type whichever sign it carries.
        proof {
            lemma_digits_value_nonneg(digits);
        }
        assert(digits_value(digits) > 0x8000000000000000);
        return None;
    }
    if negative {
        if magnitude == 9223372036854775808u64 {
            assert(numeral_value(s@) == i64::MIN);
            Some(i64::MIN)
        } else {
            assert(magnitude < 0x8000000000000000u64);
            let v = -(magnitude as i64);
            assert(v as int == numeral_value(s@));
            Some(v)
        }
    } else {
        if magnitude >= 9223372036854775808u64 {
            // Exactly 2^63: one past the largest positive locale value.
            assert(numeral_value(s@) > i64::MAX);
            None
        } else {
            let v = magnitude as i64;
            assert(v as int == numeral_value(s@));
            Some(v)
        }
    }
}

/// The decimal digit character for a value in 0..10.
pub open spec fn dec_digit_char(d: int) -> char {
    if d == 0 {
        '0'
    } else if d == 1 {
        '1'
    } else if d == 2 {
        '2'
    } else if d == 3 {
        '3'
    } else if d == 4 {
        '4'
    } else if d == 5 {
        '5'
    } else if d == 6 {
        '6'
    } else if d == 7 {
        '7'
    } else if d == 8 {
        '8'
    } else {
        '9'
    }
}

/// The decimal numeral of a non-negative value: most significant digit first,
/// no sign, no leading zero except for the numeral of zero itself.
pub open spec fn dec_numeral(v: int) -> Seq<char>
    decreases v,
{
    if v <= 9 {
        seq![dec_digit_char(v)]
    } else {
        dec_numeral(v / 10).push(dec_digit_char(v % 10))
    }
}

/// A decimal numeral consists of digits and denotes the value it was built
/// from.
pub proof fn lemma_dec_numeral_value(v: int)
    requires
        0 <= v,
    ensures
        all_dec_digits(dec_numeral(v)),
        digits_value(dec_numeral(v)) == v,
        dec_numeral(v).len() >= 1,
    decreases v,
{
    if v <= 9 {
        let s = seq![dec_digit_char(v)];
        assert(s.drop_last() =~= Seq::<char>::empty());
        assert(digits_value(Seq::<char>::empty()) == 0);
        assert(s.last() == dec_digit_char(v));
        assert(digit_value(dec_digit_char(v)) == v);
        assert(digits_value(s) == digit_value(dec_digit_char(v)));
    } else {
        lemma_dec_numeral_value(v / 10);
        let s = dec_numeral(v);
        assert(s.drop_last() =~= dec_numeral(v / 10));
        assert(s.last() == dec_digit_char(v % 10));
        assert(digits_value(s) == (v / 10) * 10 + (v % 10));
    }
}

/// Appends the decimal numeral of `v` to `out`.
fn push_dec_numeral(out: &mut String, v: u64)
    ensures
        final(out)@ == old(out)@ + dec_numeral(v as int),
    decreases v,
{
    if v >= 10 {
        push_dec_numeral(out, v / 10);
    }
    let d = v % 10;
    let ghost before = out@;
    if d == 0 {
        out.append("0");
        proof {
            reveal_strlit("0");
            assert("0"@ =~= seq![dec_digit_char(d as int)]);
        }
    } else if d == 1 {
        out.append("1");
        proof {
            reveal_strlit("1");
            assert("1"@ =~= seq![dec_digit_char(d as int)]);
        }
    } else if d == 2 {
        out.append("2");
        proof {
            reveal_strlit("2");
            assert("2"@ =~= seq![dec_digit_char(d as int)]);
        }
    } else if d == 3 {
        out.append("3");
        proof {
            reveal_strlit("3");
            assert("3"@ =~= seq![dec_digit_char(d as int)]);
        }
    } else if d == 4 {
        out.append("4");
        proof {
            reveal_strlit("4");
            assert("4"@ =~= seq![dec_digit_char(d as int)]);
        }
    } else if d == 5 {
        out.append("5");
        proof {
            reveal_strlit("5");
            assert("5"@ =~= seq![dec_digit_char(d as int)]);
        }
    } else if d == 6 {
        out.append("6");
        proof {
            reveal_strlit("6");
            assert("6"@ =~= seq![dec_digit_char(d as int)]);
        }
    } else if d == 7 {
        out.append("7");
        proof {
            reveal_strlit("7");
            assert("7"@ =~= seq![dec_digit_char(d as int)]);
        }
    } else if d == 8 {
        out.append("8");
        proof {
            reveal_strlit("8");
            assert("8"@ =~= seq![dec_digit_char(d as int)]);
        }
    } else {
        out.append("9");
        proof {
            reveal_strlit("9");
            assert("9"@ =~= seq![dec_digit_char(d as int)]);
        }
    }
    proof {
        if v <= 9 {
            assert(out@ =~= old(out)@ + dec_numeral(v as int));
        } else {
            assert(before == old(out)@ + dec_numeral(v as int / 10));
            assert(out@ =~= old(out)@ + dec_numeral(v as int));
        }
    }
}

/// Renders a locale identifier as its decimal numeral.
pub fn locale_text(v: u64) -> (s: String)
    ensures
        s@ == dec_numeral(v as int),
{
    let mut s = String::new();
    push_dec_numeral(&mut s, v);
    proof {
        assert(s@ =~= dec_numeral(v as int));
    }
    s
}

} // verus!
