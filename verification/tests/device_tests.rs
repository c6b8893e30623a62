use artnet_output::device::OutputDevice;
use artnet_output::packet::UNIVERSE_CHANNELS;

fn test_device(universe_count: u16) -> OutputDevice {
    OutputDevice::new(String::from("10.0.0.1:6454"), universe_count, 500)
}

#[test]
fn new_device_starts_zeroed() {
    let d = test_device(3);
    assert_eq!(d.address, "10.0.0.1:6454");
    assert_eq!(d.universe_count, 3);
    assert_eq!(d.throttle_us, 500);
    assert_eq!(d.sequence, 0);
    assert_eq!(d.sent_count, 0);
    assert_eq!(d.frame.len(), 3 * UNIVERSE_CHANNELS);
    assert!(d.frame.iter().all(|&b| b == 0));
}

#[test]
fn universe_count_for_range_is_inclusive() {
    assert_eq!(OutputDevice::universe_count_for_range(0, 31), 32);
    assert_eq!(OutputDevice::universe_count_for_range(5, 5), 1);
    assert_eq!(OutputDevice::universe_count_for_range(10, 14), 5);
}

#[test]
fn sequence_starts_at_one() {
    let mut d = test_device(1);
    assert_eq!(d.next_sequence(), 1);
    assert_eq!(d.next_sequence(), 2);
}

#[test]
fn sequence_wraps_to_one_not_zero() {
    let mut d = test_device(1);
    d.sequence = 255;
    assert_eq!(d.next_sequence(), 1);
}

#[test]
fn sequence_cycles_without_zero() {
    let mut d = test_device(1);
    for round in 0..2 {
        for expected in 1..=255u16 {
            let s = d.next_sequence();
            assert_ne!(s, 0, "round {}", round);
            assert_eq!(s as u16, expected);
        }
    }
}

#[test]
fn one_tick_emits_universe_count_packets() {
    let mut d = test_device(5);
    let packets = d.emit_frame();
    assert_eq!(packets.len(), 5);
    for (i, p) in packets.iter().enumerate() {
        assert_eq!(p.universe, i as u16);
        assert_eq!(p.data.len(), UNIVERSE_CHANNELS);
    }
}

#[test]
fn two_universe_tick_scenario() {
    let mut d = test_device(2);
    assert_eq!(d.throttle_us, 500);
    let packets = d.emit_frame();
    assert_eq!(packets.len(), 2);
    assert_eq!(packets[0].sequence, 1);
    assert_eq!(packets[1].sequence, 2);
    assert_eq!(packets[0].universe, 0);
    assert_eq!(packets[1].universe, 1);
}

#[test]
fn ticks_continue_the_sequence() {
    let mut d = test_device(2);
    let first = d.emit_frame();
    let second = d.emit_frame();
    assert_eq!(first[1].sequence, 2);
    assert_eq!(second[0].sequence, 3);
    assert_eq!(second[1].sequence, 4);
}

#[test]
fn emit_slices_the_frame_in_order() {
    let mut d = test_device(2);
    let mut first = vec![0u8; UNIVERSE_CHANNELS];
    let mut second = vec![0u8; UNIVERSE_CHANNELS];
    first[0] = 0xAA;
    first[511] = 0xAB;
    second[0] = 0xBB;
    second[7] = 0xBC;
    d.write_universe(0, &first);
    d.write_universe(1, &second);
    let packets = d.emit_frame();
    assert_eq!(packets[0].data, first);
    assert_eq!(packets[1].data, second);
}

#[test]
fn write_channel_updates_one_byte() {
    let mut d = test_device(2);
    d.write_channel(1, 9, 42);
    let packets = d.emit_frame();
    assert_eq!(packets[0].data[9], 0);
    assert_eq!(packets[1].data[9], 42);
    assert!(packets[1].data.iter().enumerate().all(|(i, &b)| i == 9 || b == 0));
}

#[test]
fn drain_twice_returns_count_then_zero() {
    let mut d = test_device(1);
    d.record_sent(17);
    assert_eq!(d.drain_and_reset_count(), 17);
    assert_eq!(d.drain_and_reset_count(), 0);
}

#[test]
fn recorded_sends_accumulate() {
    let mut d = test_device(1);
    d.record_sent(3);
    d.record_sent(4);
    assert_eq!(d.drain_and_reset_count(), 7);
    assert_eq!(d.sent_count, 0);
}

#[test]
fn stats_drain_scenario_hundred_packets_per_second() {
    let mut d = test_device(1);
    d.record_sent(100);
    let rep = d.dump_report(1000);
    assert_eq!(rep.packets, 100);
    assert_eq!(rep.rate_e4, 1_000_000);
    assert_eq!(rep.rate_e4 as f64 / 10_000.0, 100.0);
    assert_eq!(d.sent_count, 0);
}

#[test]
fn report_renders_address_and_rate() {
    let mut d = test_device(1);
    d.record_sent(100);
    let rep = d.dump_report(1000);
    assert_eq!(rep.render(), "10.0.0.1:6454: 100.0000 pkts/s");
}

#[test]
fn report_rate_rounds_down() {
    let mut d = test_device(1);
    d.record_sent(100);
    let rep = d.dump_report(1500);
    assert_eq!(rep.packets, 100);
    assert_eq!(rep.rate_e4, 666_666);
    assert_eq!(rep.render(), "10.0.0.1:6454: 66.6666 pkts/s");
}
