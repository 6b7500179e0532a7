//! Registry construction and lookup behaviour.

use mqtt_helper::error::ConnError;
use mqtt_helper::Error;
use mqtt_helper::MqttHelper;

#[test]
fn new_registry_has_one_handle_with_synthetic_entry() {
    let h = MqttHelper::new("client-a").unwrap();
    assert_eq!(h.mqtt_handle_list.len(), 1);
    let handle = &h.mqtt_handle_list[0];
    assert_eq!(handle.client_id, "client-a");
    assert_eq!(handle.devices.len(), 1);
    let d = handle.devices.get("client-a").unwrap();
    assert!(d.topic().is_none());
    assert_eq!(d.local_id().as_deref(), Some("client-a"));
    assert!(!handle.mosquitto.connected);
    assert!(handle.mosquitto.outbox.is_empty());
}

#[test]
fn construction_failure_propagates_and_creates_nothing() {
    let r = MqttHelper::new("bad\0id");
    assert!(matches!(r, Err(Error::ConnectionInit(ConnError::NulByte))));
}

#[test]
fn unknown_client_every_operation_returns_client_not_found() {
    let mut h = MqttHelper::new("a").unwrap();
    assert_eq!(h.setup("b", "u", "p", None), Err(Error::ClientId));
    assert_eq!(h.connect("b", "host", 1883, 60), Err(Error::ClientId));
    assert_eq!(h.disconnect("b"), Err(Error::ClientId));
    assert_eq!(h.reconnect("b"), Err(Error::ClientId));
    assert_eq!(h.socket("b"), Err(Error::ClientId));
    assert_eq!(h.run_loop("b", 100, 1), Err(Error::ClientId));
    assert_eq!(h.run_loop_start("b"), Err(Error::ClientId));
    assert_eq!(h.alternative_loop("b"), Err(Error::ClientId));
    assert_eq!(h.set_connect_callback("b"), Err(Error::ClientId));
    assert_eq!(h.set_disconnect_callback("b"), Err(Error::ClientId));
    assert_eq!(h.publish("b", "t", "payload"), Err(Error::ClientId));
    assert_eq!(h.subscribe("b", "t"), Err(Error::ClientId));
    assert_eq!(h.unsubscribe("b", "t"), Err(Error::ClientId));
    // No collaborator call was performed: the one handle is untouched.
    let conn = &h.mqtt_handle_list[0].mosquitto;
    assert!(conn.io_log.is_empty());
    assert!(conn.outbox.is_empty());
    assert!(conn.published.is_empty());
    assert!(conn.subs.is_empty());
    assert!(conn.unsubs.is_empty());
    assert!(!conn.connected);
}

#[test]
fn setup_stores_credentials_then_callbacks_then_tls() {
    let mut h = MqttHelper::new("a").unwrap();
    assert_eq!(h.setup("a", "user", "pass", Some("/etc/ca.pem")), Ok(()));
    let conn = &h.mqtt_handle_list[0].mosquitto;
    assert_eq!(conn.username.as_deref(), Some("user"));
    assert_eq!(conn.password.as_deref(), Some("pass"));
    assert!(conn.callbacks_ready);
    assert_eq!(conn.ca_file.as_deref(), Some("/etc/ca.pem"));
}

#[test]
fn setup_without_certificate_skips_tls() {
    let mut h = MqttHelper::new("a").unwrap();
    assert_eq!(h.setup("a", "user", "pass", None), Ok(()));
    let conn = &h.mqtt_handle_list[0].mosquitto;
    assert!(conn.callbacks_ready);
    assert_eq!(conn.ca_file, None);
}

#[test]
fn setup_rejects_credentials_with_null_byte() {
    let mut h = MqttHelper::new("a").unwrap();
    assert_eq!(
        h.setup("a", "u\0ser", "pass", None),
        Err(Error::MqttHelperSetUserPass(ConnError::NulByte))
    );
    let conn = &h.mqtt_handle_list[0].mosquitto;
    assert_eq!(conn.username, None);
    assert!(!conn.callbacks_ready);
}

#[test]
fn setup_rejects_certificate_path_with_null_byte() {
    let mut h = MqttHelper::new("a").unwrap();
    assert_eq!(
        h.setup("a", "user", "pass", Some("/ca\0.pem")),
        Err(Error::MqttHelperSetupTls(ConnError::NulByte))
    );
    // Credentials and callback initialization already happened.
    let conn = &h.mqtt_handle_list[0].mosquitto;
    assert_eq!(conn.username.as_deref(), Some("user"));
    assert!(conn.callbacks_ready);
    assert_eq!(conn.ca_file, None);
}

#[test]
fn connect_establishes_session_and_queues_packet() {
    let mut h = MqttHelper::new("a").unwrap();
    assert_eq!(h.connect("a", "broker.local", 8883, 30), Ok(()));
    let conn = &h.mqtt_handle_list[0].mosquitto;
    assert!(conn.connected);
    assert_eq!(conn.host.as_deref(), Some("broker.local"));
    assert_eq!(conn.port, 8883);
    assert_eq!(conn.keep_alive, 30);
    assert_eq!(conn.outbox.len(), 1);
}

#[test]
fn connect_rejects_hostname_with_null_byte() {
    let mut h = MqttHelper::new("a").unwrap();
    assert_eq!(
        h.connect("a", "bro\0ker", 1883, 60),
        Err(Error::MqttHelperConnect(ConnError::NulByte))
    );
    assert!(!h.mqtt_handle_list[0].mosquitto.connected);
}

#[test]
fn disconnect_without_session_is_wrapped_failure() {
    let mut h = MqttHelper::new("a").unwrap();
    assert_eq!(h.disconnect("a"), Err(Error::Wrapped(ConnError::NotConnected)));
}

#[test]
fn disconnect_closes_session() {
    let mut h = MqttHelper::new("a").unwrap();
    h.connect("a", "broker", 1883, 60).unwrap();
    assert_eq!(h.disconnect("a"), Ok(()));
    assert!(!h.mqtt_handle_list[0].mosquitto.connected);
}

#[test]
fn reconnect_before_any_connect_fails() {
    let mut h = MqttHelper::new("a").unwrap();
    assert_eq!(h.reconnect("a"), Err(Error::MqttHelperReconnect(ConnError::NotConnected)));
}

#[test]
fn reconnect_after_disconnect_reestablishes_session() {
    let mut h = MqttHelper::new("a").unwrap();
    h.connect("a", "broker", 1883, 60).unwrap();
    h.disconnect("a").unwrap();
    assert_eq!(h.reconnect("a"), Ok(()));
    let conn = &h.mqtt_handle_list[0].mosquitto;
    assert!(conn.connected);
    assert_eq!(conn.outbox.len(), 2);
}

#[test]
fn socket_needs_a_session() {
    let mut h = MqttHelper::new("a").unwrap();
    assert_eq!(h.socket("a"), Err(Error::MqttHelperSocket(ConnError::NotConnected)));
    h.connect("a", "broker", 1883, 60).unwrap();
    assert_eq!(h.socket("a"), Ok(0));
}
