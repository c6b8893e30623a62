//! Throughput statistics.
//!
//! The reporter runs on the clock loop's cadence but is gated by
//! elapsed time, not tick count, so it tolerates clock drift.  Once at
//! least a second has passed it drains every device's sent counter and
//! renders one human-readable line per device.  Rates are carried as
//! integers in ten-thousandths of a packet per second, so the whole
//! computation stays exact.  This output is diagnostic only: removing
//! it changes neither scheduling nor transport.

use vstd::prelude::*;

verus! {

use vstd::string::StringExecFns;

use crate::device::OutputDevice;
use crate::textfmt::{dec_rep, dec_rep4, push_dec, push_dec4};

/// A report is due once at least this many milliseconds have elapsed
/// since the previous one.
pub const REPORT_INTERVAL_MS: u64 = 1000;

/// Rates are carried scaled by this factor: in ten-thousandths of a
/// packet per second, matching the four decimal places printed.
pub const RATE_SCALE: u64 = 10000;

/// The measured send rate, scaled by [`RATE_SCALE`] and rounded down:
/// `count` packets over `elapsed_ms / 1000` seconds.
pub open spec fn spec_rate_e4(count: u32, elapsed_ms: u64) -> int {
    count * 10_000_000 / elapsed_ms as int
}

/// Whether the reporter should emit a new report `elapsed_ms`
/// milliseconds after the previous one.
pub fn should_report(elapsed_ms: u64) -> (due: bool)
    ensures
        due == (elapsed_ms >= REPORT_INTERVAL_MS),
{
    elapsed_ms >= REPORT_INTERVAL_MS
}

/// The send rate in ten-thousandths of a packet per second.
pub fn rate_e4(count: u32, elapsed_ms: u64) -> (r: u64)
    requires
        1 <= elapsed_ms,
    ensures
        r == spec_rate_e4(count, elapsed_ms),
{
    count as u64 * 10_000_000 / elapsed_ms
}

/// One device's share of a statistics report.
pub struct ThroughputReport {
    /// The device's destination "host:port" string.
    pub address: String,
    /// Packets sent since the previous report.
    pub packets: u32,
    /// Send rate in ten-thousandths of a packet per second.
    pub rate_e4: u64,
}

/// The characters of a rendered report line:
/// `<address>: <packets-per-second> pkts/s`, the rate with four
/// decimal places.
pub open spec fn report_line_rep(addr: Seq<char>, rate_e4: nat) -> Seq<char> {
    addr + ": "@ + dec_rep(rate_e4 / 10000) + "."@ + dec_rep4(rate_e4 % 10000) + " pkts/s"@
}

impl ThroughputReport {
    /// Render the human-readable diagnostics line for this report.
    pub fn render(&self) -> (line: String)
        ensures
            line@ == report_line_rep(self.address@, self.rate_e4 as nat),
    {
        let mut line = self.address.clone();
        line.append(": ");
        push_dec(self.rate_e4 / RATE_SCALE, &mut line);
        line.append(".");
        push_dec4(self.rate_e4 % RATE_SCALE, &mut line);
        line.append(" pkts/s");
        proof {
            assert(line@ =~= report_line_rep(self.address@, self.rate_e4 as nat));
        }
        line
    }
}

impl OutputDevice {
    /// Drain the sent counter and compute this interval's report: the
    /// drained count, and `count / (elapsed_ms / 1000)` packets per
    /// second scaled by [`RATE_SCALE`].
    pub fn dump_report(&mut self, elapsed_ms: u64) -> (rep: ThroughputReport)
        requires
            1 <= elapsed_ms,
        ensures
            *final(self) == old(self).drained(),
            rep.address@ == old(self).address@,
            rep.packets == old(self).sent_count,
            rep.rate_e4 == spec_rate_e4(old(self).sent_count, elapsed_ms),
    {
        let count = self.drain_and_reset_count();
        let rate = rate_e4(count, elapsed_ms);
        ThroughputReport { address: self.address.clone(), packets: count, rate_e4: rate }
    }
}

} // verus!
