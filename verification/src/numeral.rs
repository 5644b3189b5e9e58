use vstd::prelude::*;
use crate::text::{decimal, digit_char, push_char, push_decimal};
use num_format::ToFormattedString;

verus! {

/// The three decimal digits of `n < 1000`, with leading zeros.
pub open spec fn three_digits(n: nat) -> Seq<char> {
    seq![digit_char((n / 100) as int), digit_char(((n / 10) % 10) as int), digit_char((n % 10) as int)]
}

/// The decimal representation of `n` with a ',' between each group of three
/// digits counted from the right.
pub open spec fn grouped_decimal(n: nat) -> Seq<char>
    decreases n,
{
    if n < 1000 {
        decimal(n)
    } else {
        grouped_decimal(n / 1000) + seq![','] + three_digits(n % 1000)
    }
}

/// `num_format`'s `ToFormattedString::to_formatted_string` with `Locale::ja`.
/// The locale's separator is "," and its grouping is the standard one (groups
/// of three digits), so the result is `grouped_decimal(n)`.
#[verifier::external_body]
fn to_formatted_string_ja(n: u64) -> (s: String)
    ensures
        s@ == grouped_decimal(n as nat),
{
    n.to_formatted_string(&num_format::Locale::ja)
}

/// The rendering of a count: below ten thousand with thousands separators,
/// below one hundred million in units of ten thousand (万) with one decimal
/// place, the place left out when it is zero.
#[verifier::opaque]
pub open spec fn numeral_text(n: nat) -> Seq<char> {
    if n < 10000 {
        grouped_decimal(n)
    } else {
        let tenths = n / 1000;
        decimal(tenths / 10) + (if tenths % 10 == 0 {
            Seq::empty()
        } else {
            seq!['.', digit_char((tenths % 10) as int)]
        }) + seq!['万']
    }
}

/// Renders a view count; counts of one hundred million and more are not
/// supported.
pub fn numeral_to_string(num: u64) -> (s: String)
    requires
        num < 100_000_000,
    ensures
        s@ == numeral_text(num as nat),
{
    reveal(numeral_text);
    if num < 10000 {
        to_formatted_string_ja(num)
    } else {
        let tenths = num / 1000;
        let mut s = String::new();
        push_decimal(&mut s, tenths / 10);
        let frac: u8 = (tenths % 10) as u8;
        if frac != 0 {
            push_char(&mut s, '.');
            push_char(&mut s, (48u8 + frac) as char);
        }
        push_char(&mut s, '万');
        assert(s@ =~= numeral_text(num as nat));
        s
    }
}

proof fn lemma_decimal_small(n: nat)
    requires
        n < 10000,
    ensures
        n < 10 ==> decimal(n) == seq![digit_char(n as int)],
        10 <= n < 100 ==> decimal(n) == seq![digit_char((n / 10) as int), digit_char((n % 10) as int)],
        100 <= n < 1000 ==> decimal(n) == seq![
            digit_char((n / 100) as int),
            digit_char(((n / 10) % 10) as int),
            digit_char((n % 10) as int),
        ],
        1000 <= n ==> decimal(n) == seq![
            digit_char((n / 1000) as int),
            digit_char(((n / 100) % 10) as int),
            digit_char(((n / 10) % 10) as int),
            digit_char((n % 10) as int),
        ],
{
    reveal_with_fuel(decimal, 4);
    assert((n / 10) / 10 == n / 100);
    assert((n / 100) / 10 == n / 1000);
    assert((n / 10) % 10 == (n / 10) % 10);
    if n >= 10 {
        assert(decimal(n) == decimal(n / 10).push(digit_char((n % 10) as int)));
    }
    if n >= 100 {
        assert(decimal(n / 10) == decimal(n / 100).push(digit_char(((n / 10) % 10) as int)));
        assert((n / 100) % 10 == ((n / 10) / 10) % 10);
    }
    if n >= 1000 {
        assert(decimal(n / 100) == decimal(n / 1000).push(digit_char(((n / 100) % 10) as int)));
    }
}

/// A count below ten thousand is shown as its decimal digits, with a ','
/// after the thousands digit when there is one; a count from ten thousand
/// on is shown in units of ten thousand (万), with the thousands as one
/// decimal place unless that digit is zero.
pub proof fn law_numeral_shape(n: nat)
    requires
        n < 100_000_000,
    ensures
        n < 10 ==> numeral_text(n) == seq![digit_char(n as int)],
        10 <= n < 100 ==> numeral_text(n) == seq![digit_char((n / 10) as int), digit_char((n % 10) as int)],
        100 <= n < 1000 ==> numeral_text(n) == seq![
            digit_char((n / 100) as int),
            digit_char(((n / 10) % 10) as int),
            digit_char((n % 10) as int),
        ],
        1000 <= n < 10000 ==> numeral_text(n) == seq![
            digit_char((n / 1000) as int),
            ',',
            digit_char(((n / 100) % 10) as int),
            digit_char(((n / 10) % 10) as int),
            digit_char((n % 10) as int),
        ],
        10000 <= n && (n / 1000) % 10 == 0 ==> numeral_text(n) == decimal(n / 10000) + seq!['万'],
        10000 <= n && (n / 1000) % 10 != 0 ==> numeral_text(n) == decimal(n / 10000) + seq![
            '.',
            digit_char(((n / 1000) % 10) as int),
            '万',
        ],
{
    reveal(numeral_text);
    if n < 1000 {
        lemma_decimal_small(n);
    } else if n < 10000 {
        lemma_grouped_four_digits(n);
    } else {
        assert((n / 1000) / 10 == n / 10000);
    }
}

proof fn lemma_grouped_four_digits(n: nat)
    requires
        1000 <= n < 10000,
    ensures
        grouped_decimal(n) == seq![
            digit_char((n / 1000) as int),
            ',',
            digit_char(((n / 100) % 10) as int),
            digit_char(((n / 10) % 10) as int),
            digit_char((n % 10) as int),
        ],
{
    let q = n / 1000;
    let r = n % 1000;
    assert(n == 1000 * q + r && 0 <= r < 1000 && q < 10);
    assert(n / 100 == 10 * q + r / 100);
    assert(r / 100 == (n / 100) % 10);
    assert(n / 10 == 100 * q + r / 10);
    assert((r / 10) % 10 == (n / 10) % 10);
    assert(r % 10 == n % 10);
    assert(grouped_decimal(n) == grouped_decimal(q) + seq![','] + three_digits(r));
    assert(grouped_decimal(q) == decimal(q));
    assert(decimal(q) == seq![digit_char(q as int)]);
    assert(grouped_decimal(n) =~= seq![
        digit_char((n / 1000) as int),
        ',',
        digit_char(((n / 100) % 10) as int),
        digit_char(((n / 10) % 10) as int),
        digit_char((n % 10) as int),
    ]);
}

} // verus!
