use wifi_visualizer::events::store::{clock_reading, expected_beacons, Store};
use wifi_visualizer::events::{AccessPointInfo, ConnectionType, Event};
use wifi_visualizer::ieee802_11::util::MacAddress;

fn station() -> MacAddress {
    MacAddress::new([0x00, 0x11, 0x22, 0x33, 0x44, 0x55])
}

fn access_point() -> MacAddress {
    MacAddress::new([0xb0, 0xee, 0x7b, 0x98, 0x3a, 0x79])
}

fn broadcast() -> MacAddress {
    MacAddress::new([0xff; 6])
}

fn multicast() -> MacAddress {
    MacAddress::new([0x01, 0x00, 0x5e, 0x00, 0x00, 0xfb])
}

#[test]
fn a_new_store_is_empty() {
    let mut store = Store::new();
    assert_eq!(store.pending(), 0);
    assert!(store.flush_buffer().is_empty());
    assert!(!store.is_known(station()));
    assert_eq!(store.connection(station(), access_point()), None);
    assert_eq!(store.frame_count(station()), 0);
}

#[test]
fn add_address_twice_emits_one_new_address() {
    let mut store = Store::new();
    store.add_address(station());
    store.add_address(station());
    assert_eq!(store.flush_buffer(), vec![Event::NewAddress(station())]);
    store.add_address(station());
    assert!(store.flush_buffer().is_empty());
}

#[test]
fn add_address_refreshes_the_time_of_last_sighting() {
    let mut store = Store::new();
    store.add_address_at(station(), 10);
    assert_eq!(store.last_seen(station()), Some(10));
    store.add_address_at(station(), 25);
    assert_eq!(store.last_seen(station()), Some(25));
    assert_eq!(store.last_seen(access_point()), None);
    assert_eq!(store.flush_buffer(), vec![Event::NewAddress(station())]);
}

#[test]
fn group_addresses_are_not_tracked() {
    let mut store = Store::new();
    store.add_address(broadcast());
    store.add_address(multicast());
    store.change_connection(station(), broadcast(), ConnectionType::Associated);
    store.change_connection(multicast(), station(), ConnectionType::Authentication);
    store.probe_request(broadcast(), b"net".to_vec());
    assert!(store.flush_buffer().is_empty());
    assert!(!store.is_known(broadcast()));
    assert!(!store.is_known(multicast()));
    assert_eq!(store.connection(station(), broadcast()), None);
    assert!(!store.has_probed(broadcast(), &b"net".to_vec()));
}

#[test]
fn flush_buffer_drains_in_order() {
    let mut store = Store::new();
    store.add_address(station());
    store.add_address(access_point());
    assert_eq!(store.pending(), 2);
    assert_eq!(
        store.flush_buffer(),
        vec![Event::NewAddress(station()), Event::NewAddress(access_point())]
    );
    assert_eq!(store.pending(), 0);
    assert!(store.flush_buffer().is_empty());
}

#[test]
fn access_point_is_write_once() {
    let mut store = Store::new();
    let first = AccessPointInfo { ssid: b"home".to_vec(), channel: Some(6) };
    let second = AccessPointInfo { ssid: b"other".to_vec(), channel: None };
    store.access_point(access_point(), first.clone());
    store.access_point(access_point(), second);
    assert_eq!(
        store.flush_buffer(),
        vec![Event::AccessPoint(access_point(), first.clone())]
    );
    assert_eq!(store.access_point_info(access_point()), Some(first));
    assert_eq!(store.access_point_info(station()), None);
}

#[test]
fn a_new_pair_is_recorded_whatever_the_kind() {
    for kind in [
        ConnectionType::Associated,
        ConnectionType::Authentication,
        ConnectionType::Disassociated,
        ConnectionType::InRange,
    ] {
        let mut store = Store::new();
        store.change_connection(station(), access_point(), kind);
        assert_eq!(
            store.flush_buffer(),
            vec![Event::Connection(station(), access_point(), kind)]
        );
        assert_eq!(store.connection(access_point(), station()), Some(kind));
        store.change_connection(station(), access_point(), kind);
        store.change_connection(access_point(), station(), kind);
        assert!(store.flush_buffer().is_empty());
    }
}

#[test]
fn authentication_is_kept_over_weaker_evidence() {
    let mut store = Store::new();
    store.change_connection(station(), access_point(), ConnectionType::Authentication);
    store.flush_buffer();
    store.change_connection(station(), access_point(), ConnectionType::InRange);
    store.change_connection(station(), access_point(), ConnectionType::Associated);
    store.change_connection(access_point(), station(), ConnectionType::Associated);
    assert!(store.flush_buffer().is_empty());
    assert_eq!(
        store.connection(station(), access_point()),
        Some(ConnectionType::Authentication)
    );
    store.change_connection(station(), access_point(), ConnectionType::Disassociated);
    assert_eq!(
        store.flush_buffer(),
        vec![Event::Connection(
            station(),
            access_point(),
            ConnectionType::Disassociated
        )]
    );
    assert_eq!(
        store.connection(station(), access_point()),
        Some(ConnectionType::Disassociated)
    );
}

#[test]
fn in_range_never_overwrites() {
    for kind in [
        ConnectionType::Associated,
        ConnectionType::Authentication,
        ConnectionType::Disassociated,
    ] {
        let mut store = Store::new();
        store.change_connection(station(), access_point(), kind);
        store.flush_buffer();
        store.change_connection(station(), access_point(), ConnectionType::InRange);
        assert!(store.flush_buffer().is_empty());
        assert_eq!(store.connection(station(), access_point()), Some(kind));
    }
}

#[test]
fn associated_overwrites_all_but_authentication() {
    for old in [ConnectionType::Disassociated, ConnectionType::InRange] {
        let mut store = Store::new();
        store.change_connection(station(), access_point(), old);
        store.flush_buffer();
        store.change_connection(access_point(), station(), ConnectionType::Associated);
        assert_eq!(
            store.flush_buffer(),
            vec![Event::Connection(
                access_point(),
                station(),
                ConnectionType::Associated
            )]
        );
    }
}

#[test]
fn authentication_and_disassociated_always_overwrite() {
    for new in [ConnectionType::Authentication, ConnectionType::Disassociated] {
        for old in [
            ConnectionType::Associated,
            ConnectionType::Authentication,
            ConnectionType::Disassociated,
            ConnectionType::InRange,
        ] {
            let mut store = Store::new();
            store.change_connection(station(), access_point(), old);
            store.flush_buffer();
            store.change_connection(station(), access_point(), new);
            let events = store.flush_buffer();
            if old == new {
                assert!(events.is_empty());
            } else {
                assert_eq!(
                    events,
                    vec![Event::Connection(station(), access_point(), new)]
                );
            }
            assert_eq!(store.connection(station(), access_point()), Some(new));
        }
    }
}

#[test]
fn pairs_are_kept_apart() {
    let other = MacAddress::new([0x00, 0x11, 0x22, 0x33, 0x44, 0x56]);
    let mut store = Store::new();
    store.change_connection(station(), access_point(), ConnectionType::Authentication);
    store.change_connection(other, access_point(), ConnectionType::InRange);
    assert_eq!(
        store.connection(station(), access_point()),
        Some(ConnectionType::Authentication)
    );
    assert_eq!(
        store.connection(other, access_point()),
        Some(ConnectionType::InRange)
    );
    assert_eq!(store.connection(other, station()), None);
    assert_eq!(store.flush_buffer().len(), 2);
}

#[test]
fn probe_request_emits_once_per_station_and_name() {
    let mut store = Store::new();
    store.probe_request(station(), b"home".to_vec());
    store.probe_request(station(), b"home".to_vec());
    store.probe_request(station(), b"work".to_vec());
    store.probe_request(access_point(), b"home".to_vec());
    store.probe_request(station(), b"work".to_vec());
    store.probe_request(station(), b"home".to_vec());
    assert_eq!(
        store.flush_buffer(),
        vec![
            Event::ProbeRequest(station(), b"home".to_vec()),
            Event::ProbeRequest(station(), b"work".to_vec()),
            Event::ProbeRequest(access_point(), b"home".to_vec()),
        ]
    );
    assert!(store.has_probed(station(), &b"home".to_vec()));
    assert!(store.has_probed(station(), &b"work".to_vec()));
    assert!(!store.has_probed(access_point(), &b"work".to_vec()));
    assert!(!store.has_probed(station(), &b"hom".to_vec()));
}

#[test]
fn expected_beacons_counts_whole_intervals() {
    assert_eq!(expected_beacons(102_400, 0, 0), 1);
    assert_eq!(expected_beacons(102_400, 0, 102_399), 1);
    assert_eq!(expected_beacons(102_400, 0, 102_400), 2);
    assert_eq!(expected_beacons(102_400, 0, 1_000_000), 10);
    assert_eq!(expected_beacons(102_400, 500, 1_000_500), 10);
    assert_eq!(expected_beacons(102_400, 1_000, 10), 1);
    assert_eq!(expected_beacons(1, 0, u64::MAX), u64::MAX);
    assert_eq!(expected_beacons(1, 0, u64::MAX - 1), u64::MAX);
    assert_eq!(expected_beacons(1, 0, u64::MAX - 2), u64::MAX - 1);
    assert_eq!(expected_beacons(0, 7, 7), 1);
    assert_eq!(expected_beacons(0, 7, 8), u64::MAX);
}

#[test]
fn the_first_beacon_is_reported_at_once() {
    let mut store = Store::new();
    store.update_beacon_quality_at(access_point(), 102_400, 0);
    store.update_beacon_quality_at(access_point(), 102_400, 102_400);
    store.update_beacon_quality_at(access_point(), 204_800, 204_800);
    assert_eq!(
        store.flush_buffer(),
        vec![Event::BeaconQuality(access_point(), 1, 1)]
    );
    assert_eq!(store.beacon_count(access_point()), 3);
}

#[test]
fn beacon_quality_is_reported_when_due() {
    let mut store = Store::new();
    store.update_beacon_quality_at(access_point(), 102_400, 0);
    for n in 1..8u64 {
        store.update_beacon_quality_at(access_point(), 102_400, n * 102_400);
    }
    store.flush_buffer();
    store.check_timers_at(999_999);
    assert!(store.flush_buffer().is_empty());
    store.check_timers_at(1_000_000);
    assert_eq!(
        store.flush_buffer(),
        vec![Event::BeaconQuality(access_point(), 8, 10)]
    );
    store.check_timers_at(1_999_999);
    assert!(store.flush_buffer().is_empty());
    store.check_timers_at(2_048_000);
    assert_eq!(
        store.flush_buffer(),
        vec![Event::BeaconQuality(access_point(), 8, 21)]
    );
    // the next report is due one interval after the last, not after the first
    store.check_timers_at(3_000_000);
    assert!(store.flush_buffer().is_empty());
    store.check_timers_at(3_048_000);
    assert_eq!(store.flush_buffer().len(), 1);
}

#[test]
fn rate_is_reported_per_interval() {
    let mut store = Store::new();
    store.update_rate_at(station(), 0);
    assert_eq!(store.flush_buffer(), vec![Event::Rate(station(), 1)]);
    store.update_rate_at(station(), 100);
    store.update_rate_at(station(), 200);
    assert!(store.flush_buffer().is_empty());
    assert_eq!(store.frame_count(station()), 3);
    store.check_timers_at(999_999);
    assert!(store.flush_buffer().is_empty());
    store.check_timers_at(1_000_000);
    assert_eq!(store.flush_buffer(), vec![Event::Rate(station(), 3)]);
    store.update_rate_at(station(), 1_500_000);
    store.update_rate_at(station(), 1_600_000);
    store.check_timers_at(2_000_000);
    assert_eq!(store.flush_buffer(), vec![Event::Rate(station(), 2)]);
    // a silent interval reports a rate of zero and ends the reports
    store.check_timers_at(3_000_000);
    assert_eq!(store.flush_buffer(), vec![Event::Rate(station(), 0)]);
    store.check_timers_at(4_000_000);
    store.check_timers_at(5_000_000);
    assert!(store.flush_buffer().is_empty());
    // the next frame starts them again
    store.update_rate_at(station(), 5_500_000);
    assert_eq!(store.flush_buffer(), vec![Event::Rate(station(), 1)]);
    store.check_timers_at(6_500_000);
    assert_eq!(store.flush_buffer(), vec![Event::Rate(station(), 1)]);
}

#[test]
fn signal_is_reported_per_interval_and_times_out() {
    let mut store = Store::new();
    store.update_signal_at(station(), -40, 0);
    assert_eq!(store.flush_buffer(), vec![Event::Signal(station(), -40)]);
    store.update_signal_at(station(), -50, 500_000);
    assert!(store.flush_buffer().is_empty());
    store.check_timers_at(999_999);
    assert!(store.flush_buffer().is_empty());
    store.check_timers_at(1_000_000);
    assert_eq!(store.flush_buffer(), vec![Event::Signal(station(), -50)]);
    store.check_timers_at(2_000_000);
    assert_eq!(store.flush_buffer(), vec![Event::Signal(station(), -50)]);
    store.check_timers_at(5_499_999);
    assert_eq!(store.flush_buffer(), vec![Event::Signal(station(), -50)]);
    // five seconds after the last measurement the address is out of range
    store.check_timers_at(6_499_999);
    assert_eq!(store.flush_buffer(), vec![Event::Signal(station(), 0)]);
    store.check_timers_at(9_000_000);
    assert!(store.flush_buffer().is_empty());
    store.update_signal_at(station(), -60, 9_500_000);
    assert_eq!(store.flush_buffer(), vec![Event::Signal(station(), -60)]);
}

#[test]
fn signal_times_out_exactly_at_the_timeout() {
    let mut store = Store::new();
    store.update_signal_at(station(), -40, 0);
    store.flush_buffer();
    store.check_timers_at(4_999_999);
    assert_eq!(store.flush_buffer(), vec![Event::Signal(station(), -40)]);
    let mut store = Store::new();
    store.update_signal_at(station(), -40, 0);
    store.flush_buffer();
    store.check_timers_at(5_000_000);
    assert_eq!(store.flush_buffer(), vec![Event::Signal(station(), 0)]);
}

#[test]
fn timers_report_beacons_then_rates_then_signals_in_scheduling_order() {
    let mut store = Store::new();
    store.update_signal_at(station(), -40, 0);
    store.update_signal_at(access_point(), -70, 0);
    store.update_rate_at(access_point(), 0);
    store.update_rate_at(station(), 0);
    store.update_beacon_quality_at(access_point(), 100_000, 0);
    store.flush_buffer();
    store.check_timers_at(1_000_000);
    assert_eq!(
        store.flush_buffer(),
        vec![
            Event::BeaconQuality(access_point(), 1, 11),
            Event::Rate(access_point(), 1),
            Event::Rate(station(), 1),
            Event::Signal(station(), -40),
            Event::Signal(access_point(), -70),
        ]
    );
}

#[test]
fn a_clock_that_goes_back_reports_nothing() {
    let mut store = Store::new();
    store.update_signal_at(station(), -40, 10_000_000);
    store.update_rate_at(station(), 10_000_000);
    store.update_beacon_quality_at(station(), 1000, 10_000_000);
    store.flush_buffer();
    store.check_timers_at(0);
    assert!(store.flush_buffer().is_empty());
    store.check_timers_at(u64::MAX);
    assert_eq!(store.flush_buffer().len(), 3);
    store.update_rate_at(access_point(), u64::MAX);
    store.check_timers_at(u64::MAX);
    assert_eq!(store.flush_buffer(), vec![Event::Rate(access_point(), 1)]);
}

#[test]
fn operations_by_the_clock_behave_like_the_timed_ones() {
    let mut store = Store::new();
    store.update_rate(station());
    store.update_signal(station(), -33);
    store.update_beacon_quality(access_point(), 102_400);
    store.check_timers();
    assert_eq!(
        store.flush_buffer(),
        vec![
            Event::Rate(station(), 1),
            Event::Signal(station(), -33),
            Event::BeaconQuality(access_point(), 1, 1),
        ]
    );
    let first = store.now();
    let second = store.now();
    assert!(first <= second);
}

#[test]
fn clock_readings_stop_at_the_largest_number() {
    assert_eq!(clock_reading(0), 0);
    assert_eq!(clock_reading(1_500_000), 1_500_000);
    assert_eq!(clock_reading(u64::MAX as u128), u64::MAX);
    assert_eq!(clock_reading(u64::MAX as u128 + 1), u64::MAX);
    assert_eq!(clock_reading(u128::MAX), u64::MAX);
}
