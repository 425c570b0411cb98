//! Decimal renderings of the numbers that appear in ledger descriptions and
//! user-facing messages, as character sequences.

use vstd::prelude::*;

verus! {

/// The digit character for one decimal digit.
pub open spec fn spec_digit_char(d: nat) -> char {
    if d == 0 {
        '0'
    } else if d == 1 {
        '1'
    } else if d == 2 {
        '2'
    } else if d == 3 {
        '3'
    } else if d == 4 {
        '4'
    } else if d == 5 {
        '5'
    } else if d == 6 {
        '6'
    } else if d == 7 {
        '7'
    } else if d == 8 {
        '8'
    } else {
        '9'
    }
}

/// The decimal rendering of a natural number, most significant digit first.
pub open spec fn spec_dec_nat(n: nat) -> Seq<char>
    decreases n,
{
    if n < 10 {
        seq![spec_digit_char(n)]
    } else {
        spec_dec_nat(n / 10).push(spec_digit_char(n % 10))
    }
}

/// The decimal rendering of a signed number: a minus sign for negatives,
/// then the digits.
pub open spec fn spec_dec_int(n: int) -> Seq<char> {
    if n < 0 {
        seq!['-'] + spec_dec_nat((-n) as nat)
    } else {
        spec_dec_nat(n as nat)
    }
}

/// Appends the decimal rendering of `n` to `out`, most significant digit
/// first.
pub(crate) fn append_dec_nat(out: &mut String, n: u64)
    ensures
        final(out)@ == old(out)@ + spec_dec_nat(n as nat),
    decreases n,
{
    if n >= 10 {
        append_dec_nat(out, n / 10);
    }
    let d = n % 10;
    let digit: &str = if d == 0 {
        "0"
    } else if d == 1 {
        "1"
    } else if d == 2 {
        "2"
    } else if d == 3 {
        "3"
    } else if d == 4 {
        "4"
    } else if d == 5 {
        "5"
    } else if d == 6 {
        "6"
    } else if d == 7 {
        "7"
    } else if d == 8 {
        "8"
    } else {
        "9"
    };
    proof {
        reveal_strlit("0");
        reveal_strlit("1");
        reveal_strlit("2");
        reveal_strlit("3");
        reveal_strlit("4");
        reveal_strlit("5");
        reveal_strlit("6");
        reveal_strlit("7");
        reveal_strlit("8");
        reveal_strlit("9");
        assert(digit@ =~= seq![spec_digit_char((n % 10) as nat)]);
    }
    out.append(digit);
    proof {
        if n >= 10 {
            assert(spec_dec_nat(n as nat) =~= spec_dec_nat((n / 10) as nat) + seq![
                spec_digit_char((n % 10) as nat),
            ]);
        }
        assert(out@ =~= old(out)@ + spec_dec_nat(n as nat));
    }
}

/// Appends the decimal rendering of a signed number to `out`: a minus sign
/// first when `n` is negative.
pub(crate) fn append_dec_i64(out: &mut String, n: i64)
    ensures
        final(out)@ == old(out)@ + spec_dec_int(n as int),
{
    if n < 0 {
        let magnitude = (-(n as i128)) as u64;
        out.append("-");
        proof {
            reveal_strlit("-");
            assert("-"@ =~= seq!['-']);
        }
        append_dec_nat(out, magnitude);
        proof {
            assert(out@ =~= old(out)@ + spec_dec_int(n as int));
        }
    } else {
        append_dec_nat(out, n as u64);
    }
}

} // verus!
