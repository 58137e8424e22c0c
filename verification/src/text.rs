//! Text that requests are assembled from.

use vstd::prelude::*;
use vstd::string::StringExecFns;

verus! {

/// The character that writes the digit `d`.
pub open spec fn digit_char(d: nat) -> char {
    seq!['0', '1', '2', '3', '4', '5', '6', '7', '8', '9'][d as int]
}

/// The digits of `n` in base ten, most significant first, without leading zeros.
pub open spec fn decimal_nat(n: nat) -> Seq<char>
    decreases n,
{
    if n < 10 {
        seq![digit_char(n)]
    } else {
        decimal_nat(n / 10).push(digit_char(n % 10))
    }
}

/// The way an integer is written in base ten: a minus sign for a negative
/// number, then the digits of its magnitude.
pub open spec fn decimal(i: int) -> Seq<char> {
    if i < 0 {
        seq!['-'] + decimal_nat((-i) as nat)
    } else {
        decimal_nat(i as nat)
    }
}

fn digit_str(d: u32) -> (r: &'static str)
    requires
        d < 10,
    ensures
        r@ == seq![digit_char(d as nat)],
{
    proof {
        reveal_strlit("0");
        reveal_strlit("1");
        reveal_strlit("2");
        reveal_strlit("3");
        reveal_strlit("4");
        reveal_strlit("5");
        reveal_strlit("6");
        reveal_strlit("7");
        reveal_strlit("8");
        reveal_strlit("9");
    }
    let r = match d {
        0 => "0",
        1 => "1",
        2 => "2",
        3 => "3",
        4 => "4",
        5 => "5",
        6 => "6",
        7 => "7",
        8 => "8",
        _ => "9",
    };
    assert(r@ =~= seq![digit_char(d as nat)]);
    r
}

fn decimal_u32(n: u32) -> (r: String)
    ensures
        r@ == decimal_nat(n as nat),
    decreases n,
{
    if n < 10 {
        String::from_str(digit_str(n))
    } else {
        let high = decimal_u32(n / 10);
        let r = high.concat(digit_str(n % 10));
        assert(r@ =~= decimal_nat((n / 10) as nat).push(digit_char((n % 10) as nat)));
        r
    }
}

/// Writes `n` in base ten.
pub fn decimal_i32(n: i32) -> (r: String)
    ensures
        r@ == decimal(n as int),
{
    if n < 0 {
        let wide: i64 = n as i64;
        let magnitude: u32 = (-wide) as u32;
        let r = String::from_str("-").concat(decimal_u32(magnitude).as_str());
        proof {
            reveal_strlit("-");
            assert(r@ =~= seq!['-'] + decimal_nat((-n) as nat));
        }
        r
    } else {
        decimal_u32(n as u32)
    }
}

/// `left` followed by `right`.
pub fn join(left: &str, right: &str) -> (r: String)
    ensures
        r@ == left@ + right@,
{
    String::from_str(left).concat(right)
}

/// Whether `left` and `right` are the same text.
pub fn same_text(left: &str, right: &str) -> (r: bool)
    ensures
        r == (left@ == right@),
{
    String::from_str(left) == String::from_str(right)
}

} // verus!
