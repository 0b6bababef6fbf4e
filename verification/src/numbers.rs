//! Decimal reading and writing of integers, verified against spec-level
//! definitions of decimal notation.

use vstd::prelude::*;

use crate::chars;
use crate::lexer::laws::spec_all_digits;

verus! {

/// The numeric value of a decimal digit character.
pub open spec fn spec_digit_val(c: char) -> int {
    c as u32 - 48
}

/// The character of a decimal digit value.
pub open spec fn spec_digit_char(d: int) -> char {
    if d == 0 {
        '0'
    } else if d == 1 {
        '1'
    } else if d == 2 {
        '2'
    } else if d == 3 {
        '3'
    } else if d == 4 {
        '4'
    } else if d == 5 {
        '5'
    } else if d == 6 {
        '6'
    } else if d == 7 {
        '7'
    } else if d == 8 {
        '8'
    } else {
        '9'
    }
}

/// The value of a sequence of decimal digits, most significant first.
pub open spec fn spec_int_of(s: Seq<char>) -> int
    decreases s.len(),
{
    if s.len() == 0 {
        0
    } else {
        spec_int_of(s.drop_last()) * 10 + spec_digit_val(s.last())
    }
}

/// The decimal digits of a nonnegative value, most significant first.
pub open spec fn spec_nat_chars(n: int) -> Seq<char>
    decreases n,
{
    if n <= 9 {
        seq![spec_digit_char(if n < 0 {
            0
        } else {
            n
        })]
    } else {
        spec_nat_chars(n / 10).push(spec_digit_char(n % 10))
    }
}

/// The decimal notation of a value: a minus sign for a negative one, then
/// its digits.
pub open spec fn spec_int_chars(i: int) -> Seq<char> {
    if i < 0 {
        seq!['-'] + spec_nat_chars(-i)
    } else {
        spec_nat_chars(i)
    }
}

/// The value of a digit sequence is nonnegative.
pub proof fn lemma_int_of_nonneg(s: Seq<char>)
    requires
        spec_all_digits(s),
    ensures
        spec_int_of(s) >= 0,
    decreases s.len(),
{
    if s.len() > 0 {
        assert(spec_all_digits(s.drop_last()));
        lemma_int_of_nonneg(s.drop_last());
        assert(chars::spec_is_decimal_digit(s.last()));
        assert(spec_digit_val(s.last()) >= 0);
    }
}

/// The value of a digit sequence bounds the value of each of its prefixes.
pub proof fn lemma_int_of_prefix_le(s: Seq<char>, i: int)
    requires
        spec_all_digits(s),
        0 <= i <= s.len(),
    ensures
        spec_int_of(s.take(i)) <= spec_int_of(s),
    decreases s.len(),
{
    if i == s.len() {
        assert(s.take(i) =~= s);
    } else {
        assert(s.take(i) =~= s.drop_last().take(i));
        assert(spec_all_digits(s.drop_last()));
        lemma_int_of_prefix_le(s.drop_last(), i);
        lemma_int_of_nonneg(s.drop_last());
        assert(chars::spec_is_decimal_digit(s.last()));
        assert(spec_int_of(s) == spec_int_of(s.drop_last()) * 10 + spec_digit_val(s.last()));
        assert(spec_int_of(s.drop_last()) * 10 >= spec_int_of(s.drop_last())) by (nonlinear_arith)
            requires
                spec_int_of(s.drop_last()) >= 0,
        ;
    }
}

/// Decimal notation reads back to the value it was written from: the digits
/// of a nonnegative value are digits, and their value is that value.
pub proof fn lemma_decimal_round_trip(n: int)
    requires
        n >= 0,
    ensures
        spec_all_digits(spec_nat_chars(n)),
        spec_int_of(spec_nat_chars(n)) == n,
    decreases n,
{
    if n <= 9 {
        let s = spec_nat_chars(n);
        assert(s.drop_last() =~= Seq::<char>::empty());
        assert(spec_int_of(Seq::<char>::empty()) == 0);
        assert(s.last() == spec_digit_char(n));
        assert(spec_int_of(s) == spec_digit_val(spec_digit_char(n)));
    } else {
        lemma_decimal_round_trip(n / 10);
        let s = spec_nat_chars(n);
        let head = spec_nat_chars(n / 10);
        assert(s == head.push(spec_digit_char(n % 10)));
        assert(s.drop_last() =~= head);
        assert(s.last() == spec_digit_char(n % 10));
        assert(spec_all_digits(s)) by {
            assert(forall|i: int| 0 <= i < head.len() ==> s[i] == #[trigger] head[i]);
            assert(chars::spec_is_decimal_digit(spec_digit_char(n % 10)));
        }
        assert(spec_digit_val(spec_digit_char(n % 10)) == n % 10);
        vstd::arithmetic::div_mod::lemma_fundamental_div_mod(n, 10);
    }
}

/// Read the value of a span of decimal digits. `None` reports a value too
/// large for the 128-bit signed representation, and only that.
pub fn parse_digits(s: &str) -> (r: Option<i128>)
    requires
        s@.len() > 0,
        spec_all_digits(s@),
    ensures
        r is Some <==> spec_int_of(s@) <= i128::MAX,
        r is Some ==> r->0 == spec_int_of(s@),
{
    let n = s.unicode_len();
    let mut acc: i128 = 0;
    let mut i: usize = 0;
    proof {
        assert(s@.take(0) =~= Seq::<char>::empty());
    }
    while i < n
        invariant
            0 <= i <= n,
            n == s@.len(),
            spec_all_digits(s@),
            0 <= acc,
            acc == spec_int_of(s@.take(i as int)),
        decreases n - i,
    {
        let c = s.get_char(i);
        proof {
            assert(chars::spec_is_decimal_digit(s@[i as int]));
        }
        let d: i128 = ((c as u32) - 48) as i128;
        let step = match acc.checked_mul(10) {
            Some(m) => m.checked_add(d),
            None => None,
        };
        proof {
            assert(s@.take(i + 1).drop_last() =~= s@.take(i as int));
            assert(s@.take(i + 1).last() == s@[i as int]);
            assert(spec_int_of(s@.take(i + 1)) == acc * 10 + d);
        }
        match step {
            Some(v) => {
                acc = v;
            },
            None => {
                proof {
                    assert(spec_int_of(s@.take(i + 1)) > i128::MAX);
                    lemma_int_of_prefix_le(s@, i + 1);
                }
                return None;
            },
        }
        i = i + 1;
    }
    proof {
        assert(s@.take(n as int) =~= s@);
    }
    Some(acc)
}

/// Write the decimal digits of a nonnegative value.
pub fn nat_to_text(n: u128) -> (r: String)
    ensures
        r@ == spec_nat_chars(n as int),
    decreases n,
{
    if n <= 9 {
        let mut s = String::new();
        crate::strutil::push_char(&mut s, digit_to_char((n % 10) as u8));
        proof {
            assert(s@ =~= seq![spec_digit_char(n as int)]);
        }
        s
    } else {
        let mut s = nat_to_text(n / 10);
        crate::strutil::push_char(&mut s, digit_to_char((n % 10) as u8));
        s
    }
}

/// Write the decimal notation of a value.
pub fn int_to_text(v: i128) -> (r: String)
    ensures
        r@ == spec_int_chars(v as int),
{
    if v >= 0 {
        nat_to_text(v as u128)
    } else {
        // The magnitude is computed without negating the value itself, which
        // would overflow on the smallest one.
        let stem: i128 = -(v + 1);
        let mag: u128 = (stem as u128) + 1;
        proof {
            assert(mag == -(v as int));
        }
        let digits = nat_to_text(mag);
        let mut s = String::new();
        crate::strutil::push_char(&mut s, '-');
        s.append(digits.as_str());
        proof {
            assert(s@ =~= seq!['-'] + spec_nat_chars(mag as int));
        }
        s
    }
}

/// The character of a digit value.
fn digit_to_char(d: u8) -> (r: char)
    requires
        d <= 9,
    ensures
        r == spec_digit_char(d as int),
{
    if d == 0 {
        '0'
    } else if d == 1 {
        '1'
    } else if d == 2 {
        '2'
    } else if d == 3 {
        '3'
    } else if d == 4 {
        '4'
    } else if d == 5 {
        '5'
    } else if d == 6 {
        '6'
    } else if d == 7 {
        '7'
    } else if d == 8 {
        '8'
    } else {
        '9'
    }
}

} // verus!
