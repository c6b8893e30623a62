//! One network-attached output device.
//!
//! An `OutputDevice` owns the most recent lighting state for the
//! universes routed to one controller: a flat frame buffer of
//! `universe_count * 512` channel bytes, the device's cycling sequence
//! counter, and the counter of packets sent since the last statistics
//! sample.  On every tick the device slices the buffer into one packet
//! per universe, in ascending universe order, stamping consecutive
//! sequence numbers.
//!
//! The transmitting worker and the statistics reporter run in other
//! execution contexts; callers that share one device between contexts
//! must serialize access to it (for example behind a mutex), so that
//! each tick reads a consistent frame snapshot and no count recorded by
//! the worker is lost.

use vstd::prelude::*;

verus! {

use vstd::pervasive::VecAdditionalExecFns;
use vstd::slice::{slice_subrange, slice_to_vec};

use crate::packet::{Packet, UNIVERSE_CHANNELS};
use crate::seqnum::{iter_seq, next_seq};

/// Most universes one device can own: one more than the highest
/// universe address, since addresses start at 0.
pub const MAX_UNIVERSES: u16 = 32768;

/// Per-device output state.  See the module documentation.
pub struct OutputDevice {
    /// The destination "host:port" string, fixed for the device's lifetime.
    pub address: String,
    /// The frame buffer: `universe_count * 512` channel bytes, universe 0 first.
    pub frame: Vec<u8>,
    /// The last assigned sequence number, 0 while none has been assigned.
    pub sequence: u8,
    /// The number of universes routed to this device, fixed at construction.
    pub universe_count: u16,
    /// Minimum spacing, in microseconds, between transmissions to this device.
    pub throttle_us: u64,
    /// Packets transmitted since the last statistics sample.
    pub sent_count: u32,
}

impl OutputDevice {
    /// Well-formedness: the frame buffer holds exactly one 512-byte
    /// payload per universe, and every universe fits the protocol's
    /// 15-bit address space.
    pub open spec fn wf(&self) -> bool {
        &&& self.universe_count <= MAX_UNIVERSES
        &&& self.frame@.len() == self.universe_count as nat * UNIVERSE_CHANNELS as nat
    }

    /// Build a device for `universe_count` universes with an all-zero
    /// frame, an unassigned sequence counter and a zero sent counter.
    pub fn new(address: String, universe_count: u16, throttle_us: u64) -> (d: OutputDevice)
        requires
            universe_count <= MAX_UNIVERSES,
        ensures
            d.wf(),
            d.address@ == address@,
            d.universe_count == universe_count,
            d.throttle_us == throttle_us,
            d.sequence == 0,
            d.sent_count == 0,
            forall|i: int| 0 <= i < d.frame@.len() ==> d.frame@[i] == 0u8,
    {
        proof {
            assert(universe_count as int * UNIVERSE_CHANNELS as int
                <= MAX_UNIVERSES as int * UNIVERSE_CHANNELS as int) by (nonlinear_arith)
                requires
                    universe_count <= MAX_UNIVERSES,
            ;
        }
        let len: usize = universe_count as usize * UNIVERSE_CHANNELS;
        let mut frame: Vec<u8> = Vec::new();
        let mut i: usize = 0;
        while i < len
            invariant
                i <= len,
                frame@.len() == i,
                forall|j: int| 0 <= j < i ==> frame@[j] == 0u8,
            decreases len - i,
        {
            frame.push(0u8);
            i = i + 1;
        }
        OutputDevice {
            address,
            frame,
            sequence: 0,
            universe_count,
            throttle_us,
            sent_count: 0,
        }
    }

    /// The number of universes in the inclusive input range `start..=end`.
    pub fn universe_count_for_range(start: u16, end: u16) -> (n: u16)
        requires
            start <= end,
            end - start < MAX_UNIVERSES,
        ensures
            n == end - start + 1,
            1 <= n <= MAX_UNIVERSES,
    {
        end - start + 1
    }

    /// `self` with its sequence counter replaced.
    pub open spec fn with_sequence(self, s: u8) -> OutputDevice {
        OutputDevice { sequence: s, ..self }
    }

    /// `self` with its sent counter reset to 0.
    pub open spec fn drained(self) -> OutputDevice {
        OutputDevice { sent_count: 0, ..self }
    }

    /// `self` with `n` more packets recorded as sent.
    pub open spec fn with_recorded(self, n: u32) -> OutputDevice {
        OutputDevice { sent_count: (self.sent_count + n) as u32, ..self }
    }

    /// Advance the sequence counter and return the freshly assigned
    /// number: counts climb 1, 2, ..., 255 and wrap back to 1, so 0 (the
    /// protocol's "no sequence tracking" marker) is never assigned.
    pub fn next_sequence(&mut self) -> (r: u8)
        ensures
            r == next_seq(old(self).sequence),
            1 <= r <= 255,
            *final(self) == old(self).with_sequence(r),
    {
        if self.sequence == 255 {
            self.sequence = 1;
        } else {
            self.sequence = self.sequence + 1;
        }
        self.sequence
    }

    /// Record that the worker transmitted `n` more packets.
    pub fn record_sent(&mut self, n: u32)
        requires
            old(self).sent_count + n <= u32::MAX,
        ensures
            *final(self) == old(self).with_recorded(n),
    {
        self.sent_count = self.sent_count + n;
    }

    /// Read the sent counter and reset it to zero in one step, for the
    /// statistics reporter.
    pub fn drain_and_reset_count(&mut self) -> (n: u32)
        ensures
            n == old(self).sent_count,
            *final(self) == old(self).drained(),
    {
        let n = self.sent_count;
        self.sent_count = 0;
        n
    }

    /// What one `emit_frame` call does to a device `pre`, leaving it as
    /// `post` with `packets` emitted: the frame buffer is untouched, the
    /// sequence counter steps once per universe, and packet `i` carries
    /// universe `i`'s 512-byte slice under the `i+1`-th stepped sequence
    /// number.
    pub open spec fn emits(pre: OutputDevice, post: OutputDevice, packets: Seq<Packet>) -> bool {
        &&& post == pre.with_sequence(iter_seq(pre.sequence, pre.universe_count as nat))
        &&& packets.len() == pre.universe_count
        &&& forall|i: int|
            #![trigger packets[i]]
            0 <= i < packets.len() ==> {
                &&& packets[i].wf()
                &&& packets[i].universe == i
                &&& packets[i].sequence == iter_seq(pre.sequence, (i + 1) as nat)
                &&& packets[i].data@ == pre.frame@.subrange(
                    i * UNIVERSE_CHANNELS as int,
                    (i + 1) * UNIVERSE_CHANNELS as int,
                )
            }
    }

    /// Emit one frame: for every universe in ascending order, extract
    /// its 512-byte slice of the frame buffer, stamp the next sequence
    /// number, and return the packets in emission order.  The caller
    /// hands them to the device's worker queue; the frame buffer itself
    /// is left untouched.
    #[verifier::loop_isolation(false)]
    pub fn emit_frame(&mut self) -> (packets: Vec<Packet>)
        requires
            old(self).wf(),
        ensures
            final(self).wf(),
            OutputDevice::emits(*old(self), *final(self), packets@),
    {
        let uc = self.universe_count;
        let mut packets: Vec<Packet> = Vec::new();
        let mut u: u16 = 0;
        while u < uc
            invariant
                u <= uc,
                *self == old(self).with_sequence(iter_seq(old(self).sequence, u as nat)),
                packets@.len() == u,
                forall|i: int|
                    #![trigger packets@[i]]
                    0 <= i < u ==> {
                        &&& packets@[i].wf()
                        &&& packets@[i].universe == i
                        &&& packets@[i].sequence == iter_seq(old(self).sequence, (i + 1) as nat)
                        &&& packets@[i].data@ == old(self).frame@.subrange(
                            i * UNIVERSE_CHANNELS as int,
                            (i + 1) * UNIVERSE_CHANNELS as int,
                        )
                    },
            decreases uc - u,
        {
            proof {
                assert((u as int + 1) * (UNIVERSE_CHANNELS as int)
                    <= uc as int * UNIVERSE_CHANNELS as int) by (nonlinear_arith)
                    requires
                        u < uc,
                ;
            }
            let start: usize = u as usize * UNIVERSE_CHANNELS;
            let data: Vec<u8> = slice_to_vec(
                slice_subrange(self.frame.as_slice(), start, start + UNIVERSE_CHANNELS),
            );
            let sequence = self.next_sequence();
            packets.push(Packet { universe: u, sequence, data });
            u = u + 1;
        }
        packets
    }

    /// Write one channel byte of one universe into the frame buffer:
    /// the ingestion interface through which an external frame-data
    /// producer updates lighting state between ticks.
    pub fn write_channel(&mut self, universe: u16, channel: usize, value: u8)
        requires
            old(self).wf(),
            universe < old(self).universe_count,
            channel < UNIVERSE_CHANNELS,
        ensures
            final(self).wf(),
            final(self).frame@ == old(self).frame@.update(
                universe as int * UNIVERSE_CHANNELS as int + channel,
                value,
            ),
            final(self).address == old(self).address,
            final(self).sequence == old(self).sequence,
            final(self).universe_count == old(self).universe_count,
            final(self).throttle_us == old(self).throttle_us,
            final(self).sent_count == old(self).sent_count,
    {
        proof {
            let uc = self.universe_count as int;
            assert((universe as int + 1) * (UNIVERSE_CHANNELS as int)
                <= uc * UNIVERSE_CHANNELS as int) by (nonlinear_arith)
                requires
                    universe < uc,
            ;
        }
        let idx: usize = universe as usize * UNIVERSE_CHANNELS + channel;
        self.frame.set(idx, value);
    }

    /// Replace one universe's full 512-byte payload in the frame buffer.
    #[verifier::loop_isolation(false)]
    pub fn write_universe(&mut self, universe: u16, data: &[u8])
        requires
            old(self).wf(),
            universe < old(self).universe_count,
            data@.len() == UNIVERSE_CHANNELS,
        ensures
            final(self).wf(),
            final(self).frame@.len() == old(self).frame@.len(),
            forall|i: int|
                #![trigger final(self).frame@[i]]
                0 <= i < old(self).frame@.len() ==> final(self).frame@[i] == (
                if universe as int * UNIVERSE_CHANNELS as int <= i
                    < (universe as int + 1) * UNIVERSE_CHANNELS as int {
                    data@[i - universe as int * UNIVERSE_CHANNELS as int]
                } else {
                    old(self).frame@[i]
                }),
            final(self).address == old(self).address,
            final(self).sequence == old(self).sequence,
            final(self).universe_count == old(self).universe_count,
            final(self).throttle_us == old(self).throttle_us,
            final(self).sent_count == old(self).sent_count,
    {
        proof {
            let uc = self.universe_count as int;
            assert((universe as int + 1) * (UNIVERSE_CHANNELS as int)
                <= uc * UNIVERSE_CHANNELS as int) by (nonlinear_arith)
                requires
                    universe < uc,
            ;
        }
        let start: usize = universe as usize * UNIVERSE_CHANNELS;
        let mut k: usize = 0;
        while k < UNIVERSE_CHANNELS
            invariant
                k <= UNIVERSE_CHANNELS,
                self.frame@.len() == old(self).frame@.len(),
                forall|i: int|
                    #![trigger self.frame@[i]]
                    0 <= i < old(self).frame@.len() ==> self.frame@[i] == (
                    if start <= i < start + k {
                        data@[i - start]
                    } else {
                        old(self).frame@[i]
                    }),
                self.address == old(self).address,
                self.sequence == old(self).sequence,
                self.universe_count == old(self).universe_count,
                self.throttle_us == old(self).throttle_us,
                self.sent_count == old(self).sent_count,
            decreases UNIVERSE_CHANNELS - k,
        {
            let b: u8 = *vstd::slice::slice_index_get(data, k);
            self.frame.set(start + k, b);
            k = k + 1;
        }
    }

    /// Law: draining is idempotent.  A drain returns the packets sent
    /// since the last sample; a second drain with no intervening
    /// `record_sent` returns 0 and changes nothing further.
    pub proof fn lemma_drain_idempotent(self)
        ensures
            self.drained().sent_count == 0,
            self.drained().drained() == self.drained(),
    {
    }

    /// Law: no count is lost between samples.  Sends recorded since a
    /// drain accumulate, and the next drain reads exactly their sum.
    pub proof fn lemma_counts_accumulate(self, a: u32, b: u32)
        requires
            a + b <= u32::MAX,
        ensures
            self.drained().with_recorded(a).with_recorded(b).sent_count == a + b,
    {
    }
}

} // verus!
