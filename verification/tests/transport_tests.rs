use artnet_output::device::OutputDevice;
use artnet_output::packet::{encode_packet, Packet, UNIVERSE_CHANNELS};
use artnet_output::queue::PacketQueue;
use artnet_output::worker::next_transmission;

fn packet(universe: u16, sequence: u8, first_byte: u8) -> Packet {
    let mut data = vec![0u8; UNIVERSE_CHANNELS];
    data[0] = first_byte;
    Packet { universe, sequence, data }
}

#[test]
fn encoding_is_a_framed_datagram_not_the_payload() {
    let p = packet(3, 7, 0xCD);
    let bytes = encode_packet(&p);
    assert_eq!(bytes.len(), UNIVERSE_CHANNELS + 18);
    assert_eq!(&bytes[0..8], b"Art-Net\0");
    assert_ne!(bytes, p.data);
    assert_eq!(&bytes[18..], &p.data[..]);
}

#[test]
fn encoding_round_trips_through_the_protocol_library() {
    let p = packet(260, 42, 0x5A);
    let bytes = encode_packet(&p);
    match artnet_protocol::ArtCommand::from_buffer(&bytes).unwrap() {
        artnet_protocol::ArtCommand::Output(out) => {
            assert_eq!(out.sequence, 42);
            assert_eq!(u16::from(out.port_address), 260);
            assert_eq!(out.data.as_ref(), &p.data);
        }
        other => panic!("decoded to an unexpected command: {:?}", other),
    }
}

#[test]
fn queue_is_fifo() {
    let mut q = PacketQueue::new();
    assert_eq!(q.len(), 0);
    q.push(packet(0, 1, 10));
    q.push(packet(1, 2, 20));
    q.push(packet(2, 3, 30));
    assert_eq!(q.len(), 3);
    assert_eq!(q.pop().unwrap().data[0], 10);
    assert_eq!(q.pop().unwrap().data[0], 20);
    assert_eq!(q.pop().unwrap().data[0], 30);
    assert!(q.pop().is_none());
}

#[test]
fn worker_transmits_in_emission_order() {
    // Inject ordinals into the frame, emit, and receive on a mock
    // transport: the datagrams must leave in the order produced.
    let mut d = OutputDevice::new(String::from("10.0.0.2:6454"), 3, 500);
    for u in 0..3u16 {
        let mut payload = vec![0u8; UNIVERSE_CHANNELS];
        payload[0] = 100 + u as u8;
        d.write_universe(u, &payload);
    }
    let mut q = PacketQueue::new();
    for p in d.emit_frame() {
        q.push(p);
    }
    let mut received: Vec<Vec<u8>> = Vec::new();
    while let Some(bytes) = next_transmission(&mut q) {
        received.push(bytes);
    }
    assert_eq!(received.len(), 3);
    for (i, bytes) in received.iter().enumerate() {
        assert_eq!(bytes[18] as usize, 100 + i);
        assert_eq!(bytes[12] as usize, i + 1);
    }
}

#[test]
fn worker_on_empty_queue_returns_none() {
    let mut q = PacketQueue::new();
    assert!(next_transmission(&mut q).is_none());
}
