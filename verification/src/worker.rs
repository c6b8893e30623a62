//! The per-device output worker's decision core.
//!
//! One worker runs per device, for the process lifetime, consuming its
//! queue in FIFO order: encode the oldest pending packet, send the
//! bytes as one UDP datagram to the device's fixed address, record the
//! send, then sleep the device's throttle interval.  The send, the
//! count transfer and the sleep belong to the embedding; the decision —
//! which packet leaves next and which bytes go on the wire — is here.
//! No retry and no delivery confirmation: the protocol tolerates an
//! occasional lost datagram, because a corrected frame follows shortly.

use vstd::prelude::*;

verus! {

use crate::packet::{art_dmx_encoding, encode_packet, UNIVERSE_CHANNELS};
use crate::queue::PacketQueue;

/// Take the oldest pending packet off the queue and encode it for the
/// wire.  Returns `None` exactly when the queue is empty, else the
/// datagram bytes of the popped packet.
pub fn next_transmission(q: &mut PacketQueue) -> (r: Option<Vec<u8>>)
    requires
        old(q).wf(),
        forall|k: int| 0 <= k < old(q).pending().len() ==> (#[trigger] old(q).pending()[k]).wf(),
    ensures
        final(q).wf(),
        final(q).produced() == old(q).produced(),
        match r {
            Some(bytes) => {
                &&& old(q).pending().len() > 0
                &&& final(q).pending() == old(q).pending().subrange(
                    1,
                    old(q).pending().len() as int,
                )
                &&& final(q).transmitted() == old(q).transmitted().push(old(q).pending()[0])
                &&& bytes@ == art_dmx_encoding(
                    old(q).pending()[0].universe,
                    old(q).pending()[0].sequence,
                    old(q).pending()[0].data@,
                )
                &&& bytes@.len() == UNIVERSE_CHANNELS + 18
            },
            None => {
                &&& old(q).pending().len() == 0
                &&& final(q).pending() == old(q).pending()
                &&& final(q).transmitted() == old(q).transmitted()
            },
        },
{
    match q.pop() {
        Some(p) => Some(encode_packet(&p)),
        None => None,
    }
}

} // verus!
