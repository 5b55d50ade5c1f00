//! Verified text building blocks: decimal rendering of counters and
//! durations, string equality, and joining strings with commas.

use vstd::prelude::*;
use vstd::string::StringExecFns;

verus! {

/// The decimal digit character for a value below ten.
pub open spec fn dec_digit(d: int) -> char
    recommends
        0 <= d < 10,
{
    if d == 0 {
        '0'
    } else if d == 1 {
        '1'
    } else if d == 2 {
        '2'
    } else if d == 3 {
        '3'
    } else if d == 4 {
        '4'
    } else if d == 5 {
        '5'
    } else if d == 6 {
        '6'
    } else if d == 7 {
        '7'
    } else if d == 8 {
        '8'
    } else {
        '9'
    }
}

/// The usual decimal rendering of a non-negative integer, most significant
/// digit first and without leading zeros (zero itself is `"0"`).
pub open spec fn dec_rep(n: int) -> Seq<char>
    recommends
        n >= 0,
    decreases n,
{
    if n < 10 {
        seq![dec_digit(n)]
    } else {
        dec_rep(n / 10).push(dec_digit(n % 10))
    }
}

/// The one-character string for a single decimal digit.
fn digit_str(d: u8) -> (r: &'static str)
    requires
        d < 10,
    ensures
        r@ =~= seq![dec_digit(d as int)],
{
    proof {
        reveal_strlit("0");
        reveal_strlit("1");
        reveal_strlit("2");
        reveal_strlit("3");
        reveal_strlit("4");
        reveal_strlit("5");
        reveal_strlit("6");
        reveal_strlit("7");
        reveal_strlit("8");
        reveal_strlit("9");
    }
    if d == 0 {
        "0"
    } else if d == 1 {
        "1"
    } else if d == 2 {
        "2"
    } else if d == 3 {
        "3"
    } else if d == 4 {
        "4"
    } else if d == 5 {
        "5"
    } else if d == 6 {
        "6"
    } else if d == 7 {
        "7"
    } else if d == 8 {
        "8"
    } else {
        "9"
    }
}

/// Renders a number in decimal.
pub fn dec_u128(n: u128) -> (r: String)
    ensures
        r@ =~= dec_rep(n as int),
    decreases n,
{
    if n < 10 {
        digit_str(n as u8).to_owned()
    } else {
        let mut s = dec_u128(n / 10);
        s.append(digit_str((n % 10) as u8));
        proof {
            assert(dec_rep(n as int) =~= dec_rep(n as int / 10).push(
                dec_digit(n as int % 10)));
            assert(dec_rep(n as int / 10).push(dec_digit(n as int % 10)) =~= dec_rep(
                n as int / 10) + seq![dec_digit(n as int % 10)]);
        }
        s
    }
}

/// Whether two string slices hold the same characters.
pub fn str_eq(a: &str, b: &str) -> (r: bool)
    ensures
        r == (a@ == b@),
{
    let sa: String = a.to_owned();
    let sb: String = b.to_owned();
    sa == sb
}

/// The strings of `parts` laid end to end with a comma between neighbours.
pub open spec fn join_commas(parts: Seq<Seq<char>>) -> Seq<char>
    decreases parts.len(),
{
    if parts.len() == 0 {
        Seq::empty()
    } else if parts.len() == 1 {
        parts.last()
    } else {
        join_commas(parts.drop_last()) + seq![','] + parts.last()
    }
}

/// Joins the given strings with a comma between neighbours.
pub fn join_with_commas(parts: &Vec<String>) -> (r: String)
    ensures
        r@ =~= join_commas(parts@.map_values(|s: String| s@)),
{
    let ghost viewed = parts@.map_values(|s: String| s@);
    let mut acc = String::new();
    let mut i: usize = 0;
    while i < parts.len()
        invariant
            i <= parts.len(),
            viewed == parts@.map_values(|s: String| s@),
            viewed.len() == parts@.len(),
            acc@ =~= join_commas(viewed.take(i as int)),
        decreases parts.len() - i,
    {
        if i > 0 {
            acc.append(",");
        }
        acc.append(parts[i].as_str());
        proof {
            reveal_strlit(",");
            assert(viewed.take(i + 1).drop_last() =~= viewed.take(i as int));
            assert(viewed.take(i + 1).last() == viewed[i as int]);
            assert(viewed[i as int] == parts@[i as int]@);
            if i > 0 {
                assert(acc@ =~= join_commas(viewed.take(i as int)) + seq![','] + viewed[
                    i as int]);
            }
        }
        i = i + 1;
    }
    proof {
        assert(viewed.take(viewed.len() as int) =~= viewed);
    }
    acc
}

} // verus!
