use artnet_output::clock::{frame_period_ms, DEFAULT_FPS, DEFAULT_THROTTLE_US};
use artnet_output::manager::{device_index_for_universe, DeviceTopology, Outputs};
use artnet_output::packet::UNIVERSE_CHANNELS;
use artnet_output::stats::should_report;
use artnet_output::textfmt::{format_address, u64_to_dec};

fn topology() -> Vec<DeviceTopology> {
    vec![
        DeviceTopology {
            address: format_address("10.0.0.1", 6454),
            universe_start: 0,
            universe_end: 15,
            throttle_us: DEFAULT_THROTTLE_US,
        },
        DeviceTopology {
            address: format_address("10.0.0.2", 6455),
            universe_start: 16,
            universe_end: 17,
            throttle_us: 250,
        },
    ]
}

#[test]
fn manager_builds_one_device_per_entry() {
    let outputs = Outputs::new(&topology());
    assert_eq!(outputs.devices.len(), 2);
    assert_eq!(outputs.devices[0].address, "10.0.0.1:6454");
    assert_eq!(outputs.devices[0].universe_count, 16);
    assert_eq!(outputs.devices[0].throttle_us, 500);
    assert_eq!(outputs.devices[0].frame.len(), 16 * UNIVERSE_CHANNELS);
    assert_eq!(outputs.devices[1].address, "10.0.0.2:6455");
    assert_eq!(outputs.devices[1].universe_count, 2);
    assert_eq!(outputs.devices[1].throttle_us, 250);
}

#[test]
fn tick_fans_out_in_declared_order() {
    let mut outputs = Outputs::new(&topology());
    let batches = outputs.tick();
    assert_eq!(batches.len(), 2);
    assert_eq!(batches[0].len(), 16);
    assert_eq!(batches[1].len(), 2);
    // Devices sequence independently: both start their own 1, 2, ...
    assert_eq!(batches[0][0].sequence, 1);
    assert_eq!(batches[1][0].sequence, 1);
    assert_eq!(batches[1][1].sequence, 2);
    for (u, p) in batches[0].iter().enumerate() {
        assert_eq!(p.universe, u as u16);
    }
}

#[test]
fn reports_drain_every_device() {
    let mut outputs = Outputs::new(&topology());
    outputs.devices[0].record_sent(800);
    outputs.devices[1].record_sent(50);
    let reports = outputs.dump_reports(2000);
    assert_eq!(reports.len(), 2);
    assert_eq!(reports[0].packets, 800);
    assert_eq!(reports[0].rate_e4, 4_000_000);
    assert_eq!(reports[0].render(), "10.0.0.1:6454: 400.0000 pkts/s");
    assert_eq!(reports[1].packets, 50);
    assert_eq!(reports[1].rate_e4, 250_000);
    assert_eq!(outputs.devices[0].sent_count, 0);
    assert_eq!(outputs.devices[1].sent_count, 0);
}

#[test]
fn universes_route_to_the_owning_device() {
    let topo = topology();
    assert_eq!(device_index_for_universe(&topo, 0), Some(0));
    assert_eq!(device_index_for_universe(&topo, 15), Some(0));
    assert_eq!(device_index_for_universe(&topo, 16), Some(1));
    assert_eq!(device_index_for_universe(&topo, 17), Some(1));
    assert_eq!(device_index_for_universe(&topo, 18), None);
}

#[test]
fn overlapping_ranges_route_to_the_later_device() {
    let mut topo = topology();
    topo[1].universe_start = 10;
    assert_eq!(device_index_for_universe(&topo, 12), Some(1));
    assert_eq!(device_index_for_universe(&topo, 9), Some(0));
}

#[test]
fn clock_period_follows_the_frame_rate() {
    assert_eq!(frame_period_ms(DEFAULT_FPS), 20);
    assert_eq!(frame_period_ms(25), 40);
    assert_eq!(frame_period_ms(1000), 1);
}

#[test]
fn reporting_is_gated_by_elapsed_time() {
    assert!(!should_report(0));
    assert!(!should_report(999));
    assert!(should_report(1000));
    assert!(should_report(5000));
}

#[test]
fn address_and_decimal_rendering() {
    assert_eq!(format_address("localhost", 0), "localhost:0");
    assert_eq!(format_address("192.168.1.20", 6454), "192.168.1.20:6454");
    assert_eq!(u64_to_dec(0), "0");
    assert_eq!(u64_to_dec(10050), "10050");
    assert_eq!(u64_to_dec(u64::MAX), "18446744073709551615");
}
