//! The output manager.
//!
//! Constructed once from the resolved topology, the manager owns one
//! `OutputDevice` per configured controller and fans a single global
//! tick out to all of them, in the order the topology declared them —
//! an order without protocol meaning, but kept deterministic for
//! reproducibility.  After construction the devices are independent:
//! the manager holds no shared mutable state beyond the collection
//! itself.

use vstd::prelude::*;

verus! {

use crate::device::{OutputDevice, MAX_UNIVERSES};
use crate::packet::Packet;
use crate::stats::{spec_rate_e4, ThroughputReport};

/// One device's resolved configuration: immutable after load.
pub struct DeviceTopology {
    /// Destination "host:port" string.
    pub address: String,
    /// First input universe routed to this device.
    pub universe_start: u16,
    /// Last input universe routed to this device (inclusive).
    pub universe_end: u16,
    /// Minimum spacing between transmissions, in microseconds.
    pub throttle_us: u64,
}

impl DeviceTopology {
    /// A loadable entry: a non-empty universe range that fits the
    /// protocol's address space.
    pub open spec fn wf(&self) -> bool {
        &&& self.universe_start <= self.universe_end
        &&& self.universe_end - self.universe_start < MAX_UNIVERSES
    }

    /// The number of universes this entry routes.
    pub open spec fn universe_count(&self) -> int {
        self.universe_end - self.universe_start + 1
    }

    /// Whether input universe `universe` is routed to this device.
    pub open spec fn routes(&self, universe: u16) -> bool {
        self.universe_start <= universe <= self.universe_end
    }
}

/// Which device input universe `universe` feeds: the index of the last
/// topology entry whose range contains it, or `None` when no entry
/// does.  Later entries win on overlapping ranges.  The frame-data
/// producer uses this to pick the device whose buffer a universe's
/// data belongs in.
pub fn device_index_for_universe(topology: &Vec<DeviceTopology>, universe: u16) -> (r: Option<
    usize,
>)
    ensures
        match r {
            Some(d) => {
                &&& d < topology@.len()
                &&& topology@[d as int].routes(universe)
                &&& forall|k: int|
                    d < k < topology@.len() ==> !(#[trigger] topology@[k]).routes(universe)
            },
            None => forall|k: int|
                0 <= k < topology@.len() ==> !(#[trigger] topology@[k]).routes(universe),
        },
{
    let mut i: usize = topology.len();
    while i > 0
        invariant
            i <= topology@.len(),
            forall|k: int| i <= k < topology@.len() ==> !(#[trigger] topology@[k]).routes(universe),
        decreases i,
    {
        i = i - 1;
        let t = &topology[i];
        if t.universe_start <= universe && universe <= t.universe_end {
            return Some(i);
        }
    }
    None
}

/// The collection of output devices, in topology order.
pub struct Outputs {
    /// One device per topology entry, in declared order.
    pub devices: Vec<OutputDevice>,
}

impl Outputs {
    /// Every device is well-formed.
    pub open spec fn wf(&self) -> bool {
        forall|i: int| 0 <= i < self.devices@.len() ==> (#[trigger] self.devices@[i]).wf()
    }

    /// Build one fresh device per topology entry, in declared order.
    /// Spawning each device's worker is the embedding's job, done right
    /// after construction.
    pub fn new(topology: &Vec<DeviceTopology>) -> (outputs: Outputs)
        requires
            forall|i: int| 0 <= i < topology@.len() ==> (#[trigger] topology@[i]).wf(),
        ensures
            outputs.wf(),
            outputs.devices@.len() == topology@.len(),
            forall|i: int|
                #![trigger outputs.devices@[i]]
                0 <= i < topology@.len() ==> {
                    &&& outputs.devices@[i].address@ == topology@[i].address@
                    &&& outputs.devices@[i].universe_count == topology@[i].universe_count()
                    &&& outputs.devices@[i].throttle_us == topology@[i].throttle_us
                    &&& outputs.devices@[i].sequence == 0
                    &&& outputs.devices@[i].sent_count == 0
                    &&& forall|j: int|
                        0 <= j < outputs.devices@[i].frame@.len()
                            ==> outputs.devices@[i].frame@[j] == 0u8
                },
    {
        let mut devices: Vec<OutputDevice> = Vec::new();
        let mut i: usize = 0;
        while i < topology.len()
            invariant
                i <= topology@.len(),
                forall|k: int| 0 <= k < topology@.len() ==> (#[trigger] topology@[k]).wf(),
                devices@.len() == i,
                forall|k: int|
                    #![trigger devices@[k]]
                    0 <= k < i ==> {
                        &&& devices@[k].wf()
                        &&& devices@[k].address@ == topology@[k].address@
                        &&& devices@[k].universe_count == topology@[k].universe_count()
                        &&& devices@[k].throttle_us == topology@[k].throttle_us
                        &&& devices@[k].sequence == 0
                        &&& devices@[k].sent_count == 0
                        &&& forall|j: int|
                            0 <= j < devices@[k].frame@.len() ==> devices@[k].frame@[j] == 0u8
                    },
            decreases topology@.len() - i,
        {
            let t = &topology[i];
            let count = OutputDevice::universe_count_for_range(t.universe_start, t.universe_end);
            let device = OutputDevice::new(t.address.clone(), count, t.throttle_us);
            devices.push(device);
            i = i + 1;
        }
        Outputs { devices }
    }

    /// One global tick: ask every device, in declared order, to emit a
    /// frame.  Returns each device's packets, in the same order, for
    /// handoff to that device's worker queue.
    #[verifier::loop_isolation(false)]
    pub fn tick(&mut self) -> (batches: Vec<Vec<Packet>>)
        requires
            old(self).wf(),
        ensures
            final(self).wf(),
            final(self).devices@.len() == old(self).devices@.len(),
            batches@.len() == old(self).devices@.len(),
            forall|d: int|
                #![trigger batches@[d]]
                0 <= d < batches@.len() ==> OutputDevice::emits(
                    old(self).devices@[d],
                    final(self).devices@[d],
                    batches@[d]@,
                ),
    {
        let mut batches: Vec<Vec<Packet>> = Vec::new();
        let mut i: usize = 0;
        while i < self.devices.len()
            invariant
                i <= self.devices@.len(),
                self.devices@.len() == old(self).devices@.len(),
                self.wf(),
                batches@.len() == i,
                forall|d: int|
                    #![trigger batches@[d]]
                    0 <= d < i ==> OutputDevice::emits(
                        old(self).devices@[d],
                        self.devices@[d],
                        batches@[d]@,
                    ),
                forall|d: int|
                    i <= d < self.devices@.len() ==> self.devices@[d] == old(self).devices@[d],
            decreases self.devices@.len() - i,
        {
            let packets = self.devices[i].emit_frame();
            batches.push(packets);
            i = i + 1;
        }
        batches
    }

    /// Drain every device's sent counter, in declared order, and
    /// compute one throughput report per device for the elapsed
    /// interval.
    #[verifier::loop_isolation(false)]
    pub fn dump_reports(&mut self, elapsed_ms: u64) -> (reports: Vec<ThroughputReport>)
        requires
            old(self).wf(),
            1 <= elapsed_ms,
        ensures
            final(self).wf(),
            final(self).devices@.len() == old(self).devices@.len(),
            reports@.len() == old(self).devices@.len(),
            forall|d: int|
                0 <= d < reports@.len() ==> #[trigger] final(self).devices@[d] == old(
                    self,
                ).devices@[d].drained(),
            forall|d: int|
                #![trigger reports@[d]]
                0 <= d < reports@.len() ==> {
                    &&& reports@[d].address@ == old(self).devices@[d].address@
                    &&& reports@[d].packets == old(self).devices@[d].sent_count
                    &&& reports@[d].rate_e4 == spec_rate_e4(
                        old(self).devices@[d].sent_count,
                        elapsed_ms,
                    )
                },
    {
        let mut reports: Vec<ThroughputReport> = Vec::new();
        let mut i: usize = 0;
        while i < self.devices.len()
            invariant
                i <= self.devices@.len(),
                self.devices@.len() == old(self).devices@.len(),
                self.wf(),
                reports@.len() == i,
                forall|d: int|
                    0 <= d < i ==> #[trigger] self.devices@[d] == old(self).devices@[d].drained(),
                forall|d: int|
                    #![trigger reports@[d]]
                    0 <= d < i ==> {
                        &&& reports@[d].address@ == old(self).devices@[d].address@
                        &&& reports@[d].packets == old(self).devices@[d].sent_count
                        &&& reports@[d].rate_e4 == spec_rate_e4(
                            old(self).devices@[d].sent_count,
                            elapsed_ms,
                        )
                    },
                forall|d: int|
                    i <= d < self.devices@.len() ==> self.devices@[d] == old(self).devices@[d],
            decreases self.devices@.len() - i,
        {
            let report = self.devices[i].dump_report(elapsed_ms);
            reports.push(report);
            i = i + 1;
        }
        reports
    }
}

} // verus!
