use r_fubon_neo::constants::{AUTH_TIMEOUT, MAX_MISSED_PONGS, PING_INTERVAL, WEBSOCKET_TIMEOUT};
use r_fubon_neo::market_data::websocket::{HeartbeatMonitor, HeartbeatStep};

#[test]
fn timing_values_are_the_protocol_s() {
    assert_eq!(MAX_MISSED_PONGS, 2);
    assert_eq!(PING_INTERVAL, 30);
    assert_eq!(AUTH_TIMEOUT, 5);
    assert_eq!(WEBSOCKET_TIMEOUT, 5);
}

#[test]
fn a_new_monitor_is_idle() {
    let mut monitor = HeartbeatMonitor::new();
    assert_eq!(monitor.missed_pongs(), 0);
    assert!(!monitor.is_running());
    assert_eq!(monitor.record_probe(), HeartbeatStep::Halted);
    assert_eq!(monitor.missed_pongs(), 0);
}

#[test]
fn every_probe_counts_one() {
    let mut monitor = HeartbeatMonitor::new();
    monitor.start();
    assert!(monitor.is_running());
    assert_eq!(monitor.record_probe(), HeartbeatStep::Probed);
    assert_eq!(monitor.missed_pongs(), 1);
    assert_eq!(monitor.record_probe(), HeartbeatStep::Probed);
    assert_eq!(monitor.missed_pongs(), 2);
}

#[test]
fn the_third_probe_in_a_row_stops_the_monitor() {
    let mut monitor = HeartbeatMonitor::new();
    monitor.start();
    monitor.record_probe();
    monitor.record_probe();
    assert!(monitor.is_running());
    assert_eq!(monitor.record_probe(), HeartbeatStep::Expired);
    assert_eq!(monitor.missed_pongs(), 3);
    assert!(!monitor.is_running());
    assert_eq!(monitor.record_probe(), HeartbeatStep::Halted);
    assert_eq!(monitor.missed_pongs(), 3);
}

#[test]
fn an_answer_returns_the_count_to_zero() {
    let mut monitor = HeartbeatMonitor::new();
    monitor.start();
    monitor.record_probe();
    monitor.record_probe();
    monitor.record_pong();
    assert_eq!(monitor.missed_pongs(), 0);
    assert!(monitor.is_running());
    assert_eq!(monitor.record_probe(), HeartbeatStep::Probed);
    assert_eq!(monitor.record_probe(), HeartbeatStep::Probed);
    assert_eq!(monitor.record_probe(), HeartbeatStep::Expired);
    monitor.record_pong();
    assert_eq!(monitor.missed_pongs(), 0);
    assert!(!monitor.is_running());
}

#[test]
fn a_halted_monitor_keeps_its_count_until_started_again() {
    let mut monitor = HeartbeatMonitor::new();
    monitor.start();
    monitor.record_probe();
    monitor.halt();
    assert!(!monitor.is_running());
    assert_eq!(monitor.missed_pongs(), 1);
    assert_eq!(monitor.record_probe(), HeartbeatStep::Halted);
    monitor.start();
    assert!(monitor.is_running());
    assert_eq!(monitor.missed_pongs(), 0);
}
