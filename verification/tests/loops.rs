//! The three loop-driving strategies.

use mqtt_helper::connection::IoStep;
use mqtt_helper::error::ConnError;
use mqtt_helper::Error;
use mqtt_helper::MqttHelper;

#[test]
fn run_loop_needs_a_session() {
    let mut h = MqttHelper::new("a").unwrap();
    assert_eq!(h.run_loop("a", 100, 1), Err(Error::MqttHelperRunLoop(ConnError::NotConnected)));
}

#[test]
fn run_loop_flushes_and_does_housekeeping() {
    let mut h = MqttHelper::new("a").unwrap();
    h.connect("a", "broker", 1883, 60).unwrap();
    assert_eq!(h.run_loop("a", 100, 1), Ok(()));
    let conn = &h.mqtt_handle_list[0].mosquitto;
    assert_eq!(conn.io_log, vec![IoStep::Write(100), IoStep::Misc]);
    assert!(conn.outbox.is_empty());
}

#[test]
fn run_loop_is_bounded_by_max_packets() {
    let mut h = MqttHelper::new("a").unwrap();
    h.connect("a", "broker", 1883, 60).unwrap();
    h.subscribe("a", "t1").unwrap();
    h.subscribe("a", "t2").unwrap();
    // Three packets pending; one call may process at most two.
    assert_eq!(h.run_loop("a", 50, 2), Ok(()));
    let conn = &h.mqtt_handle_list[0].mosquitto;
    assert_eq!(conn.io_log, vec![IoStep::Write(50), IoStep::Write(50), IoStep::Misc]);
    assert_eq!(conn.outbox.len(), 1);
}

#[test]
fn run_loop_start_only_starts_once() {
    let mut h = MqttHelper::new("a").unwrap();
    assert_eq!(h.run_loop_start("a"), Ok(()));
    assert!(h.mqtt_handle_list[0].mosquitto.background);
    assert_eq!(
        h.run_loop_start("a"),
        Err(Error::MqttHelperRunLoopStart(ConnError::AlreadyStarted))
    );
}

#[test]
fn alternative_loop_writes_until_drained_then_one_misc() {
    let mut h = MqttHelper::new("a").unwrap();
    h.connect("a", "broker", 1883, 60).unwrap();
    h.publish("a", "t", "m").unwrap();
    // Two packets pending: each write step uses the fixed 10-unit timeout,
    // and exactly one housekeeping step follows.
    assert_eq!(h.alternative_loop("a"), Ok(()));
    let conn = &h.mqtt_handle_list[0].mosquitto;
    assert_eq!(conn.io_log, vec![IoStep::Write(10), IoStep::Write(10), IoStep::Misc]);
    assert!(conn.outbox.is_empty());
}

#[test]
fn alternative_loop_with_nothing_pending_still_does_one_misc() {
    let mut h = MqttHelper::new("a").unwrap();
    h.connect("a", "broker", 1883, 60).unwrap();
    h.alternative_loop("a").unwrap();
    let before = h.mqtt_handle_list[0].mosquitto.io_log.len();
    assert_eq!(h.alternative_loop("a"), Ok(()));
    let conn = &h.mqtt_handle_list[0].mosquitto;
    assert_eq!(conn.io_log.len(), before + 1);
    assert_eq!(conn.io_log[before], IoStep::Misc);
}

#[test]
fn alternative_loop_needs_a_session() {
    let mut h = MqttHelper::new("a").unwrap();
    assert_eq!(
        h.alternative_loop("a"),
        Err(Error::MqttHelperRunLoop(ConnError::NotConnected))
    );
    assert!(h.mqtt_handle_list[0].mosquitto.io_log.is_empty());
}

#[test]
fn run_loop_with_nonpositive_bound_still_processes_one_packet() {
    let mut h = MqttHelper::new("a").unwrap();
    h.connect("a", "broker", 1883, 60).unwrap();
    h.subscribe("a", "t").unwrap();
    // Two packets pending; a bound below one is raised to one.
    assert_eq!(h.run_loop("a", 20, 0), Ok(()));
    let conn = &h.mqtt_handle_list[0].mosquitto;
    assert_eq!(conn.io_log, vec![IoStep::Write(20), IoStep::Misc]);
    assert_eq!(conn.outbox.len(), 1);
}
