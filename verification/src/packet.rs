//! Protocol packets and their wire encoding.
//!
//! A packet carries one universe's worth of channel bytes, the 15-bit
//! universe (port) address it is destined for, and a cycling sequence
//! number.  Packets have no identity beyond their place in the per-device
//! transmission order: one is built fresh per universe per tick.  The
//! binary wire format itself belongs to the protocol library; this module
//! treats it as an opaque encoding function.

use vstd::prelude::*;

verus! {

/// Channel bytes carried per universe on the wire.
pub const UNIVERSE_CHANNELS: usize = 512;

/// Highest 15-bit universe (port) address the protocol can carry.
pub const MAX_PORT_ADDRESS: u16 = 32767;

/// One universe's worth of payload, addressed and sequence-stamped.
pub struct Packet {
    /// Destination universe (port) address, at most [`MAX_PORT_ADDRESS`].
    pub universe: u16,
    /// Sequence number in 1..=255; 0 would mean "no sequence tracking".
    pub sequence: u8,
    /// Exactly [`UNIVERSE_CHANNELS`] channel bytes.
    pub data: Vec<u8>,
}

impl Packet {
    /// A packet the wire protocol can carry.
    pub open spec fn wf(&self) -> bool {
        &&& self.universe <= MAX_PORT_ADDRESS
        &&& 1 <= self.sequence <= 255
        &&& self.data@.len() == UNIVERSE_CHANNELS
    }
}

/// The bytes of one encoded ArtDmx datagram.  The wire format is a pure
/// function of the universe address, the sequence number and the payload;
/// its exact layout belongs to the protocol library.
pub uninterp spec fn art_dmx_encoding(universe: u16, sequence: u8, data: Seq<u8>) -> Seq<u8>;

/// Relies on `artnet_protocol::ArtCommand::write_to_buffer` (and
/// `PortAddress::try_from`): for a port address at most 32767 and a
/// payload of 1..=512 bytes both calls return `Ok`, the encoded bytes
/// depend on universe, sequence and payload alone, and an even-length
/// payload is framed by exactly 18 bytes of header fields.
#[verifier::external_body]
fn encode_art_dmx(universe: u16, sequence: u8, data: &Vec<u8>) -> (bytes: Vec<u8>)
    requires
        universe <= MAX_PORT_ADDRESS,
        1 <= data@.len() <= UNIVERSE_CHANNELS,
    ensures
        bytes@ == art_dmx_encoding(universe, sequence, data@),
        data@.len() % 2 == 0 ==> bytes@.len() == data@.len() + 18,
{
    let output = artnet_protocol::Output {
        sequence,
        port_address: artnet_protocol::PortAddress::try_from(universe).unwrap(),
        data: data.clone().into(),
        ..artnet_protocol::Output::default()
    };
    artnet_protocol::ArtCommand::Output(output).write_to_buffer().unwrap()
}

/// Encode a packet into the single UDP datagram that carries it.
pub fn encode_packet(p: &Packet) -> (bytes: Vec<u8>)
    requires
        p.wf(),
    ensures
        bytes@ == art_dmx_encoding(p.universe, p.sequence, p.data@),
        bytes@.len() == UNIVERSE_CHANNELS + 18,
{
    encode_art_dmx(p.universe, p.sequence, &p.data)
}

} // verus!
