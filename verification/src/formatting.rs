//! Fixed-width decimal formatting, used to build numbered asset names.

use vstd::prelude::*;

use vstd::arithmetic::div_mod::lemma_div_decreases;

verus! {

/// The decimal digit character for a value below ten.
pub open spec fn digit_char(d: int) -> char {
    if d == 0 {
        '0'
    } else if d == 1 {
        '1'
    } else if d == 2 {
        '2'
    } else if d == 3 {
        '3'
    } else if d == 4 {
        '4'
    } else if d == 5 {
        '5'
    } else if d == 6 {
        '6'
    } else if d == 7 {
        '7'
    } else if d == 8 {
        '8'
    } else {
        '9'
    }
}

/// The decimal digits of `n`, most significant first.
pub open spec fn spec_digits(n: nat) -> Seq<char>
    decreases n,
{
    if n < 10 {
        seq![digit_char(n as int)]
    } else {
        spec_digits(n / 10) + seq![digit_char((n % 10) as int)]
    }
}

/// How many decimal digits `n` has.
pub open spec fn spec_digit_count(n: nat) -> nat
    decreases n,
{
    if n < 10 {
        1
    } else {
        1 + spec_digit_count(n / 10)
    }
}

/// The digit sequence is as long as the digit count says.
pub proof fn lemma_digits_len(n: nat)
    ensures
        spec_digits(n).len() == spec_digit_count(n),
    decreases n,
{
    if n >= 10 {
        lemma_digits_len(n / 10);
    }
}

/// A positive value has no more digits than its own magnitude.
proof fn lemma_digit_count_le(n: nat)
    requires
        n >= 1,
    ensures
        spec_digit_count(n) <= n,
    decreases n,
{
    if n >= 10 {
        lemma_div_decreases(n as int, 10);
        lemma_digit_count_le(n / 10);
    }
}

/// The one-character string for a digit.
fn digit_str(d: usize) -> (r: &'static str)
    requires
        d < 10,
    ensures
        r@ =~= seq![digit_char(d as int)],
{
    proof {
        reveal_strlit("0");
        reveal_strlit("1");
        reveal_strlit("2");
        reveal_strlit("3");
        reveal_strlit("4");
        reveal_strlit("5");
        reveal_strlit("6");
        reveal_strlit("7");
        reveal_strlit("8");
        reveal_strlit("9");
    }
    match d {
        0 => "0",
        1 => "1",
        2 => "2",
        3 => "3",
        4 => "4",
        5 => "5",
        6 => "6",
        7 => "7",
        8 => "8",
        _ => "9",
    }
}

/// The decimal digits of `n`, as a string.
fn dec_string(n: usize) -> (r: String)
    ensures
        r@ =~= spec_digits(n as nat),
    decreases n,
{
    if n < 10 {
        String::from_str(digit_str(n))
    } else {
        proof {
            lemma_div_decreases(n as int, 10);
        }
        let mut s = dec_string(n / 10);
        s.append(digit_str(n % 10));
        s
    }
}

/// Format `digit` in decimal, left-padded with zeros to
/// `nb_displayed_digit` characters. Zero is a special case and formats as
/// three zeros whatever the width; any other value must fit in the
/// width.
pub fn format_digit(digit: usize, nb_displayed_digit: usize) -> (r: String)
    requires
        digit == 0 || spec_digit_count(digit as nat) <= nb_displayed_digit,
    ensures
        digit == 0 ==> r@ =~= seq!['0', '0', '0'],
        digit != 0 ==> r@ =~= Seq::new(
            (nb_displayed_digit - spec_digit_count(digit as nat)) as nat,
            |i: int| '0',
        ) + spec_digits(digit as nat),
        digit != 0 ==> r@.len() == nb_displayed_digit,
{
    if digit == 0 {
        let r = String::from_str("000");
        proof {
            reveal_strlit("000");
        }
        return r;
    }
    let mut count: usize = 0;
    let mut d: usize = digit;
    while d != 0
        invariant
            digit >= 1,
            d > 0 ==> spec_digit_count(digit as nat) == count + spec_digit_count(d as nat),
            d == 0 ==> count == spec_digit_count(digit as nat),
            count <= spec_digit_count(digit as nat),
        decreases d,
    {
        proof {
            lemma_div_decreases(d as int, 10);
            lemma_digit_count_le(digit as nat);
            assert(spec_digit_count(d as nat) >= 1);
        }
        d = d / 10;
        count = count + 1;
    }
    let mut zeros = String::new();
    let pad: usize = nb_displayed_digit - count;
    let mut i: usize = 0;
    while i < pad
        invariant
            i <= pad,
            zeros@ =~= Seq::new(i as nat, |j: int| '0'),
        decreases pad - i,
    {
        zeros.append(digit_str(0));
        proof {
            assert(zeros@ =~= Seq::new((i + 1) as nat, |j: int| '0'));
        }
        i = i + 1;
    }
    let digits = dec_string(digit);
    zeros.append(digits.as_str());
    proof {
        lemma_digits_len(digit as nat);
    }
    zeros
}

} // verus!
