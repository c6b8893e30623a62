//! Verified decimal rendering.
//!
//! The statistics reporter prints one human-readable line per device.
//! This module renders unsigned numbers in decimal, both in the usual
//! form and as a fixed four-digit zero-padded fraction, with the
//! rendered characters pinned down exactly.

use vstd::prelude::*;

verus! {

use vstd::string::StringExecFns;

/// The character for one decimal digit.
pub open spec fn digit_char(d: int) -> char {
    if d == 0 {
        '0'
    } else if d == 1 {
        '1'
    } else if d == 2 {
        '2'
    } else if d == 3 {
        '3'
    } else if d == 4 {
        '4'
    } else if d == 5 {
        '5'
    } else if d == 6 {
        '6'
    } else if d == 7 {
        '7'
    } else if d == 8 {
        '8'
    } else {
        '9'
    }
}

/// The usual decimal rendering of `n`, most significant digit first,
/// with no leading zeros (a single `'0'` for 0).
pub open spec fn dec_rep(n: nat) -> Seq<char>
    decreases n,
{
    if n < 10 {
        seq![digit_char(n as int)]
    } else {
        dec_rep(n / 10) + seq![digit_char((n % 10) as int)]
    }
}

/// The four-digit zero-padded decimal rendering of `n < 10000`.
pub open spec fn dec_rep4(n: nat) -> Seq<char> {
    seq![
        digit_char((n / 1000 % 10) as int),
        digit_char((n / 100 % 10) as int),
        digit_char((n / 10 % 10) as int),
        digit_char((n % 10) as int),
    ]
}

/// The one-character string for a decimal digit.
fn digit_str(d: u64) -> (s: &'static str)
    requires
        d < 10,
    ensures
        s@ == seq![digit_char(d as int)],
{
    proof {
        reveal_strlit("0");
        reveal_strlit("1");
        reveal_strlit("2");
        reveal_strlit("3");
        reveal_strlit("4");
        reveal_strlit("5");
        reveal_strlit("6");
        reveal_strlit("7");
        reveal_strlit("8");
        reveal_strlit("9");
        assert("0"@ =~= seq![digit_char(0)]);
        assert("1"@ =~= seq![digit_char(1)]);
        assert("2"@ =~= seq![digit_char(2)]);
        assert("3"@ =~= seq![digit_char(3)]);
        assert("4"@ =~= seq![digit_char(4)]);
        assert("5"@ =~= seq![digit_char(5)]);
        assert("6"@ =~= seq![digit_char(6)]);
        assert("7"@ =~= seq![digit_char(7)]);
        assert("8"@ =~= seq![digit_char(8)]);
        assert("9"@ =~= seq![digit_char(9)]);
    }
    if d == 0 {
        "0"
    } else if d == 1 {
        "1"
    } else if d == 2 {
        "2"
    } else if d == 3 {
        "3"
    } else if d == 4 {
        "4"
    } else if d == 5 {
        "5"
    } else if d == 6 {
        "6"
    } else if d == 7 {
        "7"
    } else if d == 8 {
        "8"
    } else {
        "9"
    }
}

/// Append the decimal rendering of `n` to `out`.
pub fn push_dec(n: u64, out: &mut String)
    ensures
        final(out)@ == old(out)@ + dec_rep(n as nat),
    decreases n,
{
    if n >= 10 {
        push_dec(n / 10, out);
    }
    out.append(digit_str(n % 10));
    proof {
        if n < 10 {
            assert(n as nat % 10 == n as nat) by (nonlinear_arith)
                requires
                    n < 10,
            ;
        }
        assert(out@ =~= old(out)@ + dec_rep(n as nat));
    }
}

/// Append the four-digit zero-padded rendering of `n < 10000` to `out`.
pub fn push_dec4(n: u64, out: &mut String)
    requires
        n < 10000,
    ensures
        final(out)@ == old(out)@ + dec_rep4(n as nat),

{
    out.append(digit_str(n / 1000 % 10));
    out.append(digit_str(n / 100 % 10));
    out.append(digit_str(n / 10 % 10));
    out.append(digit_str(n % 10));
    proof {
        assert(out@ =~= old(out)@ + dec_rep4(n as nat));
    }
}

/// The "host:port" rendering of a destination address.
pub fn format_address(host: &str, port: u16) -> (s: String)
    ensures
        s@ == host@ + seq![':'] + dec_rep(port as nat),
{
    let mut s = host.to_owned();
    s.append(":");
    push_dec(port as u64, &mut s);
    proof {
        reveal_strlit(":");
        assert(":"@ =~= seq![':']);
        assert(s@ =~= host@ + seq![':'] + dec_rep(port as nat));
    }
    s
}

/// The decimal rendering of `n` as a fresh string.
pub fn u64_to_dec(n: u64) -> (s: String)
    ensures
        s@ == dec_rep(n as nat),
{
    let mut s = String::new();
    push_dec(n, &mut s);
    proof {
        assert(s@ =~= dec_rep(n as nat));
    }
    s
}

} // verus!
