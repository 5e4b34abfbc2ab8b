//! A plain struct with a method that renders it as text.

use vstd::prelude::*;

verus! {

/// The decimal digit `d`, for `d` below ten.
pub open spec fn digit_char(d: nat) -> char
    recommends
        d < 10,
{
    seq!['0', '1', '2', '3', '4', '5', '6', '7', '8', '9'][d as int]
}

/// The decimal digits of `n`, most significant first, with no leading zero.
pub open spec fn decimal_digits(n: nat) -> Seq<char>
    decreases n,
{
    if n < 10 {
        seq![digit_char(n)]
    } else {
        decimal_digits(n / 10).push(digit_char(n % 10))
    }
}

/// `n` written in decimal, with a leading `-` when it is negative.
pub open spec fn decimal_text(n: int) -> Seq<char> {
    if n < 0 {
        seq!['-'] + decimal_digits((-n) as nat)
    } else {
        decimal_digits(n as nat)
    }
}

/// The one-character string for the digit `d`.
fn digit_str(d: u32) -> (r: &'static str)
    requires
        d < 10,
    ensures
        r@ == seq![digit_char(d as nat)],
{
    proof {
        reveal_strlit("0");
        reveal_strlit("1");
        reveal_strlit("2");
        reveal_strlit("3");
        reveal_strlit("4");
        reveal_strlit("5");
        reveal_strlit("6");
        reveal_strlit("7");
        reveal_strlit("8");
        reveal_strlit("9");
    }
    match d {
        0 => "0",
        1 => "1",
        2 => "2",
        3 => "3",
        4 => "4",
        5 => "5",
        6 => "6",
        7 => "7",
        8 => "8",
        _ => "9",
    }
}

/// Appends the decimal digits of `n` to `out`.
fn append_digits(out: &mut String, n: u32)
    ensures
        final(out)@ == old(out)@ + decimal_digits(n as nat),
    decreases n,
{
    if n >= 10 {
        append_digits(out, n / 10);
    }
    out.append(digit_str(n % 10));
}

/// A named person with an age.
pub struct Aser {
    pub name: String,
    pub age: i32,
}

impl Aser {
    /// The name and the age joined by `_`, such as `aaa_2`.
    pub fn get_tag(&self) -> (r: String)
        ensures
            r@ == self.name@ + seq!['_'] + decimal_text(self.age as int),
    {
        proof {
            reveal_strlit("_");
            reveal_strlit("-");
        }
        let mut r = self.name.clone();
        r.append("_");
        let magnitude: u32;
        if self.age < 0 {
            r.append("-");
            magnitude = (-(self.age as i64)) as u32;
        } else {
            magnitude = self.age as u32;
        }
        append_digits(&mut r, magnitude);
        r
    }
}

} // verus!
