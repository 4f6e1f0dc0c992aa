//! Small things about strings, stated over their characters.

use vstd::prelude::*;

verus! {

/// `str == str` compares the two texts character by character.
pub assume_specification[ <str as PartialEq>::eq ](a: &str, b: &str) -> (same: bool)
    ensures
        same == (a@ == b@),
;

/// The characters of a text that may be absent.
pub open spec fn opt_text(text: Option<String>) -> Option<Seq<char>> {
    match text {
        Some(t) => Some(t@),
        None => None,
    }
}

/// The characters of a text that was produced, or nothing where producing
/// it failed.
pub open spec fn ok_text<E>(text: Result<String, E>) -> Option<Seq<char>> {
    match text {
        Ok(t) => Some(t@),
        Err(_) => None,
    }
}

/// The character of a decimal digit.
pub open spec fn digit(d: int) -> char {
    if d == 0 {
        '0'
    } else if d == 1 {
        '1'
    } else if d == 2 {
        '2'
    } else if d == 3 {
        '3'
    } else if d == 4 {
        '4'
    } else if d == 5 {
        '5'
    } else if d == 6 {
        '6'
    } else if d == 7 {
        '7'
    } else if d == 8 {
        '8'
    } else {
        '9'
    }
}

/// The decimal digits of a natural number, without leading zeros.
pub open spec fn digits(n: nat) -> Seq<char>
    decreases n,
{
    if n < 10 {
        seq![digit(n as int)]
    } else {
        digits(n / 10).push(digit((n % 10) as int))
    }
}

/// The decimal notation of an integer.
pub open spec fn decimal(n: int) -> Seq<char> {
    if n < 0 {
        seq!['-'] + digits((-n) as nat)
    } else {
        digits(n as nat)
    }
}

/// The characters of the digits in `low`, the last of them first.
spec fn high_first(low: Seq<u8>) -> Seq<char>
    decreases low.len(),
{
    if low.len() == 0 {
        Seq::empty()
    } else {
        seq![digit(low.last() as int)] + high_first(low.drop_last())
    }
}

/// The digits of `n` that are still to be split off.
spec fn leading(n: nat) -> Seq<char> {
    if n == 0 {
        Seq::empty()
    } else {
        digits(n)
    }
}

fn digit_text(d: u8) -> (text: &'static str)
    requires
        d < 10,
    ensures
        text@ == seq![digit(d as int)],
{
    proof {
        reveal_strlit("0");
        reveal_strlit("1");
        reveal_strlit("2");
        reveal_strlit("3");
        reveal_strlit("4");
        reveal_strlit("5");
        reveal_strlit("6");
        reveal_strlit("7");
        reveal_strlit("8");
        reveal_strlit("9");
    }
    let text = if d == 0 {
        "0"
    } else if d == 1 {
        "1"
    } else if d == 2 {
        "2"
    } else if d == 3 {
        "3"
    } else if d == 4 {
        "4"
    } else if d == 5 {
        "5"
    } else if d == 6 {
        "6"
    } else if d == 7 {
        "7"
    } else if d == 8 {
        "8"
    } else {
        "9"
    };
    assert(text@ =~= seq![digit(d as int)]);
    text
}

/// Writes an integer in decimal notation.
pub fn decimal_text(n: i32) -> (text: String)
    ensures
        text@ == decimal(n as int),
{
    let wide: i64 = n as i64;
    let size: u64 = if wide < 0 {
        (-wide) as u64
    } else {
        wide as u64
    };
    let mut text = String::new();
    if wide < 0 {
        proof {
            reveal_strlit("-");
        }
        text.append("-");
        assert(text@ =~= seq!['-']);
    }
    let ghost sign = text@;
    let mut low: Vec<u8> = Vec::new();
    low.push((size % 10) as u8);
    let mut rest: u64 = size / 10;
    assert(digits(size as nat) =~= leading(rest as nat) + high_first(low@)) by {
        assert(low@.drop_last() =~= Seq::<u8>::empty());
        assert(high_first(low@) =~= seq![digit((size % 10) as int)]) by {
            reveal_with_fuel(high_first, 2);
        }
    }
    while rest > 0
        invariant
            digits(size as nat) == leading(rest as nat) + high_first(low@),
            forall|i: int| 0 <= i < low.len() ==> low[i] < 10,
        decreases rest,
    {
        let ghost before = low@;
        let ghost whole = rest;
        low.push((rest % 10) as u8);
        rest = rest / 10;
        proof {
            assert(low@.drop_last() =~= before);
            assert(high_first(low@) =~= seq![digit((whole % 10) as int)] + high_first(before));
            assert(leading(whole as nat) =~= leading(rest as nat) + seq![
                digit((whole % 10) as int),
            ]);
            assert(leading(whole as nat) + high_first(before) =~= leading(rest as nat)
                + high_first(low@));
        }
    }
    assert(digits(size as nat) =~= high_first(low@));
    assert(low@.take(low.len() as int) =~= low@);
    let mut left: usize = low.len();
    while left > 0
        invariant
            left <= low.len(),
            forall|i: int| 0 <= i < low.len() ==> low[i] < 10,
            text@ + high_first(low@.take(left as int)) == sign + high_first(low@),
        decreases left,
    {
        let ghost so_far = text@;
        let ghost upto = low@.take(left as int);
        left = left - 1;
        text.append(digit_text(low[left]));
        proof {
            assert(upto.drop_last() =~= low@.take(left as int));
            assert(upto.last() == low[left as int]);
            assert(high_first(upto) =~= seq![digit(low[left as int] as int)] + high_first(
                low@.take(left as int),
            ));
            assert(text@ + high_first(low@.take(left as int)) =~= so_far + high_first(upto));
        }
    }
    proof {
        assert(low@.take(0) =~= Seq::<u8>::empty());
        assert(text@ =~= sign + digits(size as nat));
    }
    text
}

} // verus!
