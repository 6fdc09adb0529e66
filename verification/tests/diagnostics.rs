use lightyear::transport::diagnostics::{IoDiagnosticsPlugin, IoRates};
use lightyear::transport::stats::IoStats;

#[test]
fn history_keeps_sixty_samples() {
    assert_eq!(IoDiagnosticsPlugin::DIAGNOSTIC_HISTORY_LEN, 60);
}

#[test]
fn zero_elapsed_time_samples_nothing() {
    let mut stats =
        IoStats { bytes_sent: 10, bytes_received: 20, packets_sent: 1, packets_received: 2 };
    let sample = IoDiagnosticsPlugin::update_diagnostics(&mut stats, 0);
    assert!(sample.is_none());
    assert_eq!(
        stats,
        IoStats { bytes_sent: 10, bytes_received: 20, packets_sent: 1, packets_received: 2 }
    );
}

#[test]
fn a_sample_holds_the_traffic_and_resets_the_counters() {
    let mut stats =
        IoStats { bytes_sent: 10, bytes_received: 20, packets_sent: 1, packets_received: 2 };
    let sample = IoDiagnosticsPlugin::update_diagnostics(&mut stats, 500_000_000).unwrap();
    assert_eq!(
        sample.traffic(),
        IoStats { bytes_sent: 10, bytes_received: 20, packets_sent: 1, packets_received: 2 }
    );
    assert_eq!(sample.elapsed_nanos(), 500_000_000);
    assert_eq!(stats, IoStats::new());
}

#[test]
fn rates_are_counts_per_second() {
    let mut stats =
        IoStats { bytes_sent: 3000, bytes_received: 1500, packets_sent: 4, packets_received: 7 };
    let sample = IoDiagnosticsPlugin::update_diagnostics(&mut stats, 2_000_000_000).unwrap();
    assert_eq!(
        sample.rates(),
        IoRates { bytes_in: 750, bytes_out: 1500, packets_in: 3, packets_out: 2 }
    );
}

#[test]
fn rates_over_a_short_interval_scale_up() {
    let mut stats =
        IoStats { bytes_sent: 1, bytes_received: 2, packets_sent: 3, packets_received: 4 };
    // one sixtieth of a second, in nanoseconds, rounded down
    let sample = IoDiagnosticsPlugin::update_diagnostics(&mut stats, 16_666_666).unwrap();
    assert_eq!(
        sample.rates(),
        IoRates { bytes_in: 120, bytes_out: 60, packets_in: 240, packets_out: 180 }
    );
}

#[test]
fn rates_do_not_overflow_at_the_largest_counters() {
    let mut stats = IoStats {
        bytes_sent: usize::MAX,
        bytes_received: usize::MAX,
        packets_sent: usize::MAX,
        packets_received: usize::MAX,
    };
    let sample = IoDiagnosticsPlugin::update_diagnostics(&mut stats, 1).unwrap();
    let expected = usize::MAX as u128 * 1_000_000_000;
    assert_eq!(
        sample.rates(),
        IoRates {
            bytes_in: expected,
            bytes_out: expected,
            packets_in: expected,
            packets_out: expected
        }
    );
}

#[test]
fn a_second_sample_without_traffic_is_all_zero() {
    let mut stats =
        IoStats { bytes_sent: 999, bytes_received: 888, packets_sent: 77, packets_received: 66 };
    let first = IoDiagnosticsPlugin::update_diagnostics(&mut stats, 1_000_000_000).unwrap();
    assert_eq!(
        first.rates(),
        IoRates { bytes_in: 888, bytes_out: 999, packets_in: 66, packets_out: 77 }
    );
    let second = IoDiagnosticsPlugin::update_diagnostics(&mut stats, 1_000_000_000).unwrap();
    assert_eq!(
        second.rates(),
        IoRates { bytes_in: 0, bytes_out: 0, packets_in: 0, packets_out: 0 }
    );
    assert_eq!(second.traffic(), IoStats::new());
    assert_eq!(stats, IoStats::new());
}

#[test]
fn a_skipped_sample_keeps_the_traffic_for_the_next_one() {
    let mut stats =
        IoStats { bytes_sent: 50, bytes_received: 0, packets_sent: 5, packets_received: 0 };
    assert!(IoDiagnosticsPlugin::update_diagnostics(&mut stats, 0).is_none());
    let next = IoDiagnosticsPlugin::update_diagnostics(&mut stats, 1_000_000_000).unwrap();
    assert_eq!(
        next.rates(),
        IoRates { bytes_in: 0, bytes_out: 50, packets_in: 0, packets_out: 5 }
    );
}
