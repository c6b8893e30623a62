//! The pacing model.
//!
//! Each worker sleeps a fixed number of microseconds after every send,
//! so successive transmissions to one device are spaced at least the
//! device's throttle interval apart.  This module states what that buys:
//! over any window of a sustained run, the number of sends is bounded by
//! the window length divided by the interval, plus one send of burst
//! tolerance.  Real clocks live outside the crate; the law is stated
//! over the trace of send times a run produces.

use vstd::prelude::*;

verus! {

use vstd::arithmetic::div_mod::{lemma_div_is_ordered, lemma_div_multiples_vanish};

/// A throttled transmission trace: `times[k]` is the instant, in
/// microseconds, of the `k`-th send to one device, and consecutive
/// sends lie at least `gap_us` apart — what a worker produces when it
/// sleeps `gap_us` after every transmission.
pub open spec fn throttled(times: Seq<int>, gap_us: int) -> bool {
    forall|k: int| 0 <= k && k + 1 < times.len() ==> #[trigger] times[k + 1] >= times[k] + gap_us
}

/// Pairwise spacing accumulates: the `j`-th send comes at least
/// `(j - i) * gap_us` after the `i`-th.
pub proof fn lemma_spacing(times: Seq<int>, gap_us: int, i: int, j: int)
    requires
        throttled(times, gap_us),
        gap_us >= 0,
        0 <= i <= j < times.len(),
    ensures
        times[j] >= times[i] + (j - i) * gap_us,
    decreases j - i,
{
    if i < j {
        lemma_spacing(times, gap_us, i, j - 1);
        assert(times[(j - 1) + 1] >= times[j - 1] + gap_us);
        assert((j - i) * gap_us == (j - 1 - i) * gap_us + gap_us) by (nonlinear_arith);
    } else {
        assert((j - i) * gap_us == 0) by (nonlinear_arith)
            requires
                i == j,
        ;
    }
}

/// Law (throttle): over a sustained run, the send rate to one device
/// never exceeds one send per `gap_us` microseconds beyond a bounded
/// burst tolerance.  Any `window_us`-microsecond window of a throttled
/// trace contains at most `window_us / gap_us + 1` sends: here sends
/// `i..=j` fall inside one window, so their count `j - i + 1` is at
/// most `window_us / gap_us + 1`.
pub proof fn lemma_send_rate_bounded(times: Seq<int>, gap_us: int, i: int, j: int, window_us: int)
    requires
        throttled(times, gap_us),
        gap_us >= 1,
        0 <= i <= j < times.len(),
        times[j] - times[i] < window_us,
    ensures
        j - i <= window_us / gap_us,
{
    lemma_spacing(times, gap_us, i, j);
    let n = j - i;
    assert(gap_us * n == n * gap_us) by (nonlinear_arith);
    lemma_div_multiples_vanish(n, gap_us);
    lemma_div_is_ordered(gap_us * n, window_us, gap_us);
}

} // verus!
