//! Character-level helpers shared by the parsers and the message builders.

use vstd::prelude::*;
use vstd::std_specs::iter::IteratorSpec;
use vstd::string::StringExecFns;

verus! {

/// The characters of `s`, in order, as a vector that can be indexed in
/// constant time.
pub fn to_chars(s: &str) -> (chars: Vec<char>)
    ensures
        chars@ == s@,
{
    broadcast use vstd::string::group_string_axioms;

    let mut chars: Vec<char> = Vec::new();
    let mut it = s.chars();
    loop
        invariant
            it.obeys_prophetic_iter_laws(),
            it.decrease() is Some,
            chars@ + it.remaining() == s@,
        decreases it.decrease()->0,
    {
        let ghost before = it;
        match it.next() {
            Some(c) => {
                proof {
                    assert(before.remaining() =~= seq![c] + it.remaining());
                    assert(chars@.push(c) + it.remaining() =~= chars@ + before.remaining());
                }
                chars.push(c);
            },
            None => {
                assert(chars@ =~= chars@ + it.remaining());
                return chars;
            },
        }
    }
}

/// The decimal digit that stands for `d`.
pub open spec fn digit(d: nat) -> char
    recommends
        d < 10,
{
    seq!['0', '1', '2', '3', '4', '5', '6', '7', '8', '9'][d as int]
}

/// The decimal numeral of `n`: no sign, no leading zero, `"0"` for zero.
pub open spec fn decimal(n: nat) -> Seq<char>
    decreases n,
{
    if n < 10 {
        seq![digit(n)]
    } else {
        decimal(n / 10).push(digit(n % 10))
    }
}

fn digit_str(d: usize) -> (s: &'static str)
    requires
        d < 10,
    ensures
        s@ == seq![digit(d as nat)],
{
    proof {
        reveal_strlit("0");
        reveal_strlit("1");
        reveal_strlit("2");
        reveal_strlit("3");
        reveal_strlit("4");
        reveal_strlit("5");
        reveal_strlit("6");
        reveal_strlit("7");
        reveal_strlit("8");
        reveal_strlit("9");
    }
    let s = if d == 0 {
        "0"
    } else if d == 1 {
        "1"
    } else if d == 2 {
        "2"
    } else if d == 3 {
        "3"
    } else if d == 4 {
        "4"
    } else if d == 5 {
        "5"
    } else if d == 6 {
        "6"
    } else if d == 7 {
        "7"
    } else if d == 8 {
        "8"
    } else {
        "9"
    };
    assert(s@ =~= seq![digit(d as nat)]);
    s
}

/// Writes `n` in decimal.
pub fn decimal_string(n: usize) -> (s: String)
    ensures
        s@ == decimal(n as nat),
    decreases n,
{
    if n < 10 {
        String::from_str(digit_str(n))
    } else {
        let mut s = decimal_string(n / 10);
        s.append(digit_str(n % 10));
        assert(s@ =~= decimal((n / 10) as nat).push(digit((n % 10) as nat)));
        s
    }
}

/// Puts `middle` between `before` and `after`.
pub fn enclose(before: &str, middle: &str, after: &str) -> (text: String)
    ensures
        text@ == before@ + middle@ + after@,
{
    let mut text = String::from_str(before);
    text.append(middle);
    text.append(after);
    text
}

} // verus!
