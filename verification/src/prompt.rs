//! The text of the retry prompt.
//!
//! The dialogue shows the failing command's exit code in decimal, embedded
//! in a fixed sentence. The rendering of the code is specified digit by
//! digit and proved, so the prompt's exact characters are pinned down for
//! every code.

use vstd::prelude::*;
use vstd::string::StringExecFns;

verus! {

/// The character for one decimal digit.
pub open spec fn digit_char(d: int) -> char {
    if d == 0 {
        '0'
    } else if d == 1 {
        '1'
    } else if d == 2 {
        '2'
    } else if d == 3 {
        '3'
    } else if d == 4 {
        '4'
    } else if d == 5 {
        '5'
    } else if d == 6 {
        '6'
    } else if d == 7 {
        '7'
    } else if d == 8 {
        '8'
    } else {
        '9'
    }
}

/// The decimal digits of a non-negative number, most significant first,
/// without leading zeros (a single `0` for zero itself).
pub open spec fn dec_rep(n: int) -> Seq<char>
    decreases n,
{
    if n < 10 {
        seq![digit_char(n)]
    } else {
        dec_rep(n / 10) + seq![digit_char(n % 10)]
    }
}

/// The decimal rendering of a signed number: a leading minus sign where it
/// is negative.
pub open spec fn int_rep(n: int) -> Seq<char> {
    if n < 0 {
        seq!['-'] + dec_rep(-n)
    } else {
        dec_rep(n)
    }
}

/// The exact prompt the dialogue shows for a failing exit code.
pub open spec fn prompt_text(code: int) -> Seq<char> {
    "msmtp failed with exit code "@ + int_rep(code) + ". Retry? (y/n): "@
}

/// Append one decimal digit to the string.
fn append_digit(s: &mut String, d: u64)
    requires
        d < 10,
    ensures
        final(s)@ == old(s)@ + seq![digit_char(d as int)],
{
    if d == 0 {
        proof {
            reveal_strlit("0");
        }
        s.append("0");
        proof {
            assert(s@ =~= old(s)@ + seq![digit_char(d as int)]);
        }
    } else if d == 1 {
        proof {
            reveal_strlit("1");
        }
        s.append("1");
        proof {
            assert(s@ =~= old(s)@ + seq![digit_char(d as int)]);
        }
    } else if d == 2 {
        proof {
            reveal_strlit("2");
        }
        s.append("2");
        proof {
            assert(s@ =~= old(s)@ + seq![digit_char(d as int)]);
        }
    } else if d == 3 {
        proof {
            reveal_strlit("3");
        }
        s.append("3");
        proof {
            assert(s@ =~= old(s)@ + seq![digit_char(d as int)]);
        }
    } else if d == 4 {
        proof {
            reveal_strlit("4");
        }
        s.append("4");
        proof {
            assert(s@ =~= old(s)@ + seq![digit_char(d as int)]);
        }
    } else if d == 5 {
        proof {
            reveal_strlit("5");
        }
        s.append("5");
        proof {
            assert(s@ =~= old(s)@ + seq![digit_char(d as int)]);
        }
    } else if d == 6 {
        proof {
            reveal_strlit("6");
        }
        s.append("6");
        proof {
            assert(s@ =~= old(s)@ + seq![digit_char(d as int)]);
        }
    } else if d == 7 {
        proof {
            reveal_strlit("7");
        }
        s.append("7");
        proof {
            assert(s@ =~= old(s)@ + seq![digit_char(d as int)]);
        }
    } else if d == 8 {
        proof {
            reveal_strlit("8");
        }
        s.append("8");
        proof {
            assert(s@ =~= old(s)@ + seq![digit_char(d as int)]);
        }
    } else {
        proof {
            reveal_strlit("9");
        }
        s.append("9");
        proof {
            assert(s@ =~= old(s)@ + seq![digit_char(d as int)]);
        }
    }
}

/// Append the decimal digits of a non-negative number to the string.
fn append_dec(s: &mut String, n: u64)
    ensures
        final(s)@ == old(s)@ + dec_rep(n as int),
    decreases n,
{
    if n < 10 {
        append_digit(s, n);
    } else {
        append_dec(s, n / 10);
        append_digit(s, n % 10);
        proof {
            assert(n as int / 10 == (n / 10) as int);
            assert(n as int % 10 == (n % 10) as int);
            assert(s@ =~= old(s)@ + dec_rep(n as int));
        }
    }
}

/// Build the prompt shown for a failing exit code: the sentence
/// `msmtp failed with exit code {code}. Retry? (y/n): `, with the code in
/// decimal.
pub fn prompt_message(code: i32) -> (r: String)
    ensures
        r@ == prompt_text(code as int),
{
    let mut s = String::from_str("msmtp failed with exit code ");
    if code < 0 {
        proof {
            reveal_strlit("-");
        }
        s.append("-");
        let wide: i64 = code as i64;
        let magnitude: u64 = (-wide) as u64;
        proof {
            assert(magnitude as int == -(code as int));
        }
        append_dec(&mut s, magnitude);
        proof {
            assert(s@ =~= "msmtp failed with exit code "@ + int_rep(code as int));
        }
    } else {
        append_dec(&mut s, code as u64);
        proof {
            assert(s@ =~= "msmtp failed with exit code "@ + int_rep(code as int));
        }
    }
    s.append(". Retry? (y/n): ");
    proof {
        assert(s@ =~= prompt_text(code as int));
    }
    s
}

} // verus!
