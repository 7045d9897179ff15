//! Decimal rendering of the run's numbers.
//!
//! The summaries show file counts and elapsed seconds.  Rendering is done
//! here over plain integers — a numeral most significant digit first, an
//! elapsed time as seconds and two centisecond digits — so the lines the
//! terminal shows are pinned exactly.

use vstd::prelude::*;
use vstd::string::StringExecFns;

verus! {

/// The glyph of one decimal digit.
pub open spec fn digit_char(d: int) -> char {
    if d == 0 {
        '0'
    } else if d == 1 {
        '1'
    } else if d == 2 {
        '2'
    } else if d == 3 {
        '3'
    } else if d == 4 {
        '4'
    } else if d == 5 {
        '5'
    } else if d == 6 {
        '6'
    } else if d == 7 {
        '7'
    } else if d == 8 {
        '8'
    } else {
        '9'
    }
}

/// The decimal numeral of `n`, most significant digit first, without
/// leading zeros (zero itself is `0`).
pub open spec fn dec_digits(n: int) -> Seq<char>
    decreases n,
{
    if n < 10 {
        seq![digit_char(n)]
    } else {
        dec_digits(n / 10) + seq![digit_char(n % 10)]
    }
}

/// The glyph of one digit, as a borrowed string.
fn digit_str(d: u64) -> (r: &'static str)
    requires
        d < 10,
    ensures
        r@ == seq![digit_char(d as int)],
{
    if d == 0 {
        proof {
            reveal_strlit("0");
            assert("0"@ =~= seq![digit_char(0)]);
        }
        "0"
    } else if d == 1 {
        proof {
            reveal_strlit("1");
            assert("1"@ =~= seq![digit_char(1)]);
        }
        "1"
    } else if d == 2 {
        proof {
            reveal_strlit("2");
            assert("2"@ =~= seq![digit_char(2)]);
        }
        "2"
    } else if d == 3 {
        proof {
            reveal_strlit("3");
            assert("3"@ =~= seq![digit_char(3)]);
        }
        "3"
    } else if d == 4 {
        proof {
            reveal_strlit("4");
            assert("4"@ =~= seq![digit_char(4)]);
        }
        "4"
    } else if d == 5 {
        proof {
            reveal_strlit("5");
            assert("5"@ =~= seq![digit_char(5)]);
        }
        "5"
    } else if d == 6 {
        proof {
            reveal_strlit("6");
            assert("6"@ =~= seq![digit_char(6)]);
        }
        "6"
    } else if d == 7 {
        proof {
            reveal_strlit("7");
            assert("7"@ =~= seq![digit_char(7)]);
        }
        "7"
    } else if d == 8 {
        proof {
            reveal_strlit("8");
            assert("8"@ =~= seq![digit_char(8)]);
        }
        "8"
    } else {
        proof {
            reveal_strlit("9");
            assert("9"@ =~= seq![digit_char(9)]);
        }
        "9"
    }
}

/// Renders `n` as its decimal numeral.
pub fn u64_to_dec(n: u64) -> (s: String)
    ensures
        s@ == dec_digits(n as int),
{
    let mut m: u64 = n;
    let mut low = String::new();
    proof {
        assert(dec_digits(n as int) + Seq::<char>::empty() =~= dec_digits(n as int));
    }
    while m >= 10
        invariant
            dec_digits(n as int) == dec_digits(m as int) + low@,
        decreases m,
    {
        let d: u64 = m % 10;
        let mut piece = digit_str(d).to_owned();
        piece.append(low.as_str());
        proof {
            assert(dec_digits(m as int) == dec_digits(m as int / 10) + seq![
                digit_char(m as int % 10),
            ]);
            assert(dec_digits(m as int / 10) + (seq![digit_char(m as int % 10)] + low@)
                =~= (dec_digits(m as int / 10) + seq![digit_char(m as int % 10)]) + low@);
        }
        low = piece;
        m = m / 10;
    }
    let mut out = digit_str(m).to_owned();
    out.append(low.as_str());
    out
}

/// The two centisecond digits of an elapsed time, zero-padded on the
/// left.
pub open spec fn padded_centis(c: int) -> Seq<char> {
    if c < 10 {
        "0"@ + dec_digits(c)
    } else {
        dec_digits(c)
    }
}

/// An elapsed time in milliseconds rendered as seconds with two decimals:
/// the numeral of the whole seconds, a point, and the two centisecond
/// digits.
pub open spec fn elapsed_text_spec(ms: int) -> Seq<char> {
    dec_digits(ms / 1000) + "."@ + padded_centis(ms % 1000 / 10)
}

/// Renders an elapsed time in milliseconds as seconds with two decimals.
pub fn format_elapsed(ms: u64) -> (s: String)
    ensures
        s@ == elapsed_text_spec(ms as int),
{
    let secs: u64 = ms / 1000;
    let centis: u64 = (ms % 1000) / 10;
    let mut out = u64_to_dec(secs);
    out.append(".");
    if centis < 10 {
        out.append("0");
    }
    let low = u64_to_dec(centis);
    out.append(low.as_str());
    proof {
        if centis < 10 {
            assert(((dec_digits(secs as int) + "."@) + "0"@) + dec_digits(centis as int)
                =~= dec_digits(secs as int) + "."@ + ("0"@ + dec_digits(centis as int)));
        } else {
            assert((dec_digits(secs as int) + "."@) + dec_digits(centis as int)
                =~= dec_digits(secs as int) + "."@ + dec_digits(centis as int));
        }
    }
    out
}

/// A progress counter rendered as `completed/total`.
pub open spec fn counter_text_spec(completed: int, total: int) -> Seq<char> {
    dec_digits(completed) + "/"@ + dec_digits(total)
}

/// Renders the `completed/total` counter the reporter shows.
pub fn counter_text(completed: usize, total: usize) -> (s: String)
    ensures
        s@ == counter_text_spec(completed as int, total as int),
{
    let mut out = u64_to_dec(completed as u64);
    out.append("/");
    let low = u64_to_dec(total as u64);
    out.append(low.as_str());
    proof {
        assert((dec_digits(completed as int) + "/"@) + dec_digits(total as int)
            =~= dec_digits(completed as int) + "/"@ + dec_digits(total as int));
    }
    out
}

} // verus!
