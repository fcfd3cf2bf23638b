//! Plain text building blocks: decimal numerals.

use vstd::prelude::*;
use vstd::string::*;

verus! {

/// The character of a decimal digit.
pub open spec fn digit_char(d: nat) -> char {
    if d == 0 { '0' }
    else if d == 1 { '1' }
    else if d == 2 { '2' }
    else if d == 3 { '3' }
    else if d == 4 { '4' }
    else if d == 5 { '5' }
    else if d == 6 { '6' }
    else if d == 7 { '7' }
    else if d == 8 { '8' }
    else { '9' }
}

/// The decimal numeral of `n`, without leading zeros (zero is `"0"`).
pub open spec fn decimal(n: nat) -> Seq<char>
    decreases n,
{
    if n < 10 {
        seq![digit_char(n)]
    } else {
        decimal(n / 10).push(digit_char(n % 10))
    }
}

/// The characters of `d`'s digits, last digit first.
pub open spec fn reversed_digits(d: Seq<u8>) -> Seq<char> {
    Seq::new(d.len(), |i: int| digit_char(d[d.len() - 1 - i] as nat))
}

fn digit_str(d: u8) -> (r: &'static str)
    requires
        d < 10,
    ensures
        r@ == seq![digit_char(d as nat)],
{
    proof {
        reveal_strlit("0");
        reveal_strlit("1");
        reveal_strlit("2");
        reveal_strlit("3");
        reveal_strlit("4");
        reveal_strlit("5");
        reveal_strlit("6");
        reveal_strlit("7");
        reveal_strlit("8");
        reveal_strlit("9");
    }
    match d {
        0 => "0",
        1 => "1",
        2 => "2",
        3 => "3",
        4 => "4",
        5 => "5",
        6 => "6",
        7 => "7",
        8 => "8",
        _ => "9",
    }
}

/// Writes `n` in decimal, as `{:?}` and `{}` do for unsigned integers.
pub fn decimal_string(n: u128) -> (r: String)
    ensures
        r@ == decimal(n as nat),
{
    let mut digits: Vec<u8> = Vec::new();
    let mut m: u128 = n;
    loop
        invariant_except_break
            decimal(n as nat) =~= decimal(m as nat) + reversed_digits(digits@),
        invariant
            forall|i: int| 0 <= i < digits.len() ==> digits[i] < 10,
        ensures
            decimal(n as nat) =~= reversed_digits(digits@),
        decreases m,
    {
        let ghost before = digits@;
        if m < 10 {
            digits.push(m as u8);
            assert(reversed_digits(digits@) =~= seq![digit_char(m as nat)] + reversed_digits(before));
            break;
        }
        digits.push((m % 10) as u8);
        assert(reversed_digits(digits@) =~= seq![digit_char((m % 10) as nat)] + reversed_digits(before));
        assert(decimal(m as nat) == decimal((m / 10) as nat).push(digit_char((m % 10) as nat)));
        m = m / 10;
    }
    let mut r = String::new();
    let mut k: usize = digits.len();
    while k > 0
        invariant
            k <= digits.len(),
            forall|i: int| 0 <= i < digits.len() ==> digits[i] < 10,
            r@ =~= reversed_digits(digits@).take((digits.len() - k) as int),
        decreases k,
    {
        k = k - 1;
        r.append(digit_str(digits[k]));
    }
    assert(reversed_digits(digits@).take(digits.len() as int) =~= reversed_digits(digits@));
    r
}

} // verus!
