//! Per-device packet sequence numbers.
//!
//! The wire protocol carries a one-byte sequence field so that receivers
//! can detect loss and reordering.  The value 0 is reserved to mean "no
//! sequence tracking", so live packets cycle through 1..=255: the counter
//! starts unassigned at 0, and each step advances by one, wrapping from
//! 255 back to 1 rather than 0.

use vstd::prelude::*;

verus! {

use vstd::arithmetic::div_mod::{
    lemma_fundamental_div_mod,
    lemma_fundamental_div_mod_converse,
    lemma_mod_bound,
};

/// The sequence value stamped by the step after one that stamped `s`
/// (with `s == 0` meaning no packet has been stamped yet).
pub open spec fn next_seq(s: u8) -> u8 {
    if s == 255 {
        1
    } else {
        (s + 1) as u8
    }
}

/// `next_seq` applied `k` times to `s`.
pub open spec fn iter_seq(s: u8, k: nat) -> u8
    decreases k,
{
    if k == 0 {
        s
    } else {
        next_seq(iter_seq(s, (k - 1) as nat))
    }
}

/// Stepping a remainder taken modulo `m`.
proof fn lemma_mod_step(a: int, m: int)
    requires
        0 <= a,
        0 < m,
    ensures
        (a + 1) % m == if a % m == m - 1 {
            0int
        } else {
            a % m + 1
        },
{
    lemma_fundamental_div_mod(a, m);
    lemma_mod_bound(a, m);
    let q = a / m;
    let r = a % m;
    if r == m - 1 {
        assert(a + 1 == (q + 1) * m + 0) by (nonlinear_arith)
            requires
                a == m * q + r,
                r == m - 1,
        ;
        lemma_fundamental_div_mod_converse(a + 1, m, q + 1, 0);
    } else {
        assert(a + 1 == q * m + (r + 1)) by (nonlinear_arith)
            requires
                a == m * q + r,
        ;
        lemma_fundamental_div_mod_converse(a + 1, m, q, r + 1);
    }
}

/// Law: starting from the unassigned state 0, the `n`-th sequence number
/// handed out is `((n - 1) % 255) + 1`.  The numbers therefore run
/// `1, 2, ..., 255, 1, 2, ...`: every one lies in 1..=255, 0 never
/// appears, and within one 255-step cycle no number repeats.
pub proof fn lemma_seq_cycle(n: nat)
    requires
        1 <= n,
    ensures
        iter_seq(0, n) == (n - 1) % 255 + 1,
        1 <= iter_seq(0, n) <= 255,
    decreases n,
{
    lemma_mod_bound(n - 1, 255);
    if n == 1 {
        assert(iter_seq(0, 1) == next_seq(iter_seq(0, 0)));
    } else {
        lemma_seq_cycle((n - 1) as nat);
        lemma_mod_step(n - 2, 255);
        lemma_mod_bound(n - 2, 255);
    }
}

/// Law: two steps within the same 255-step cycle never hand out the same
/// number; the first repeat comes exactly one full cycle later.
pub proof fn lemma_seq_no_repeat(m: nat, n: nat)
    requires
        1 <= m < n,
        n - m < 255,
    ensures
        iter_seq(0, m) != iter_seq(0, n),
{
    lemma_seq_cycle(m);
    lemma_seq_cycle(n);
    let a = (m - 1) as int;
    let b = (n - 1) as int;
    if a % 255 == b % 255 {
        lemma_fundamental_div_mod(a, 255);
        lemma_fundamental_div_mod(b, 255);
        assert(b - a == 255 * (b / 255 - a / 255)) by (nonlinear_arith)
            requires
                a == 255 * (a / 255) + a % 255,
                b == 255 * (b / 255) + b % 255,
                a % 255 == b % 255,
        ;
        assert(b / 255 - a / 255 >= 1) by (nonlinear_arith)
            requires
                b - a == 255 * (b / 255 - a / 255),
                b > a,
        ;
    }
}

/// Stepping `a` times and then `b` more is stepping `a + b` times.
pub proof fn lemma_iter_seq_add(s: u8, a: nat, b: nat)
    ensures
        iter_seq(iter_seq(s, a), b) == iter_seq(s, a + b),
    decreases b,
{
    if b > 0 {
        lemma_iter_seq_add(s, a, (b - 1) as nat);
    }
}

/// Law: across consecutive ticks of one device that emits `uc` packets
/// per tick, the `i`-th packet of tick number `t` (both counted from 0,
/// the counter starting unassigned at 0) carries sequence number
/// `((t * uc + i) % 255) + 1` — the numbers run `1, 2, ..., 255, 1, ...`
/// across tick boundaries, and 0 never appears.
pub proof fn lemma_seq_across_ticks(t: nat, uc: nat, i: nat)
    requires
        i < uc,
    ensures
        iter_seq(iter_seq(0, t * uc), i + 1) == (t * uc + i) % 255 + 1,
        1 <= iter_seq(iter_seq(0, t * uc), i + 1) <= 255,
{
    lemma_iter_seq_add(0, t * uc, i + 1);
    lemma_seq_cycle(t * uc + i + 1);
}

} // verus!
