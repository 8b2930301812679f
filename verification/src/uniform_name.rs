//! The names under which a program's uniforms are set.

use vstd::prelude::*;
use crate::program::is_uniform_name;

verus! {

/// The decimal digit for a value below ten.
pub open spec fn digit_char(d: nat) -> char {
    if d == 0 {
        '0'
    } else if d == 1 {
        '1'
    } else if d == 2 {
        '2'
    } else if d == 3 {
        '3'
    } else if d == 4 {
        '4'
    } else if d == 5 {
        '5'
    } else if d == 6 {
        '6'
    } else if d == 7 {
        '7'
    } else if d == 8 {
        '8'
    } else {
        '9'
    }
}

/// The decimal numeral of `n`, without leading zeros.
pub open spec fn decimal(n: nat) -> Seq<char>
    decreases n,
{
    if n < 10 {
        seq![digit_char(n)]
    } else {
        decimal(n / 10).push(digit_char(n % 10))
    }
}

/// The name of the sampler uniform of texture unit `unit`: the word
/// `texture` and the unit's decimal numeral.
pub open spec fn sampler_name_spec(unit: nat) -> Seq<char> {
    seq!['t', 'e', 'x', 't', 'u', 'r', 'e'] + decimal(unit)
}

/// A decimal numeral holds no zero character.
pub proof fn lemma_decimal_is_name(n: nat)
    ensures
        is_uniform_name(decimal(n)),
        decimal(n).len() > 0,
    decreases n,
{
    if n >= 10 {
        lemma_decimal_is_name(n / 10);
    }
}

/// The one-character text of a decimal digit.
pub fn digit_text(d: usize) -> (text: &'static str)
    requires
        d < 10,
    ensures
        text@ == seq![digit_char(d as nat)],
{
    proof {
        reveal_strlit("0");
        reveal_strlit("1");
        reveal_strlit("2");
        reveal_strlit("3");
        reveal_strlit("4");
        reveal_strlit("5");
        reveal_strlit("6");
        reveal_strlit("7");
        reveal_strlit("8");
        reveal_strlit("9");
    }
    let text = if d == 0 {
        "0"
    } else if d == 1 {
        "1"
    } else if d == 2 {
        "2"
    } else if d == 3 {
        "3"
    } else if d == 4 {
        "4"
    } else if d == 5 {
        "5"
    } else if d == 6 {
        "6"
    } else if d == 7 {
        "7"
    } else if d == 8 {
        "8"
    } else {
        "9"
    };
    proof {
        assert(text@ =~= seq![digit_char(d as nat)]);
    }
    text
}

/// Appends the decimal numeral of `n` to `text`.
pub fn append_decimal(text: &mut String, n: usize)
    ensures
        final(text)@ == old(text)@ + decimal(n as nat),
    decreases n,
{
    if n >= 10 {
        append_decimal(text, n / 10);
    }
    let ghost before = text@;
    text.append(digit_text(n % 10));
    proof {
        if n >= 10 {
            assert(text@ =~= old(text)@ + decimal((n / 10) as nat).push(
                digit_char((n % 10) as nat),
            ));
        } else {
            assert(text@ =~= old(text)@ + seq![digit_char(n as nat)]);
        }
    }
}

/// The name of the sampler uniform of texture unit `unit`.
pub fn sampler_name(unit: usize) -> (name: String)
    ensures
        name@ == sampler_name_spec(unit as nat),
        is_uniform_name(name@),
{
    proof {
        reveal_strlit("texture");
    }
    let mut name: String = String::from_str("texture");
    proof {
        assert(name@ =~= seq!['t', 'e', 'x', 't', 'u', 'r', 'e']);
    }
    append_decimal(&mut name, unit);
    proof {
        lemma_decimal_is_name(unit as nat);
    }
    name
}

} // verus!
