//! Publish, subscribe, unsubscribe and callback delivery.

use mqtt_helper::error::ConnError;
use mqtt_helper::Data;
use mqtt_helper::Error;
use mqtt_helper::MqttHelper;

#[test]
fn publish_with_embedded_null_never_reaches_the_collaborator() {
    let mut h = MqttHelper::new("a").unwrap();
    h.connect("a", "broker", 1883, 60).unwrap();
    assert_eq!(h.publish("a", "t", "ab\0cd"), Err(Error::MqttHelperPayload));
    let conn = &h.mqtt_handle_list[0].mosquitto;
    assert!(conn.published.is_empty());
}

#[test]
fn publish_frames_payload_with_trailing_null() {
    let mut h = MqttHelper::new("a").unwrap();
    h.connect("a", "broker", 1883, 60).unwrap();
    assert_eq!(h.publish("a", "news", "hi"), Ok(()));
    let conn = &h.mqtt_handle_list[0].mosquitto;
    assert_eq!(conn.published.len(), 1);
    assert_eq!(conn.published[0].topic, "news");
    assert_eq!(conn.published[0].payload, b"hi\0".to_vec());
}

#[test]
fn publish_rejects_topic_with_null_byte() {
    let mut h = MqttHelper::new("a").unwrap();
    h.connect("a", "broker", 1883, 60).unwrap();
    assert_eq!(h.publish("a", "t\0", "hi"), Err(Error::MqttHelperPublish(ConnError::NulByte)));
}

#[test]
fn publish_needs_a_session() {
    let mut h = MqttHelper::new("a").unwrap();
    assert_eq!(
        h.publish("a", "t", "hi"),
        Err(Error::MqttHelperPublish(ConnError::NotConnected))
    );
}

#[test]
fn subscribe_twice_to_the_same_topic_succeeds_twice() {
    // The validation only consults the device/topic map, which subscribe
    // never updates, so the second identical subscribe passes the same
    // validation and is forwarded to the collaborator again.
    let mut h = MqttHelper::new("a").unwrap();
    h.connect("a", "broker", 1883, 60).unwrap();
    assert_eq!(h.subscribe("a", "t"), Ok(()));
    assert_eq!(h.subscribe("a", "t"), Ok(()));
    let conn = &h.mqtt_handle_list[0].mosquitto;
    assert_eq!(conn.subs, vec!["t".to_string(), "t".to_string()]);
}

#[test]
fn subscribe_rejected_when_a_device_record_carries_the_topic() {
    let mut h = MqttHelper::new("a").unwrap();
    h.connect("a", "broker", 1883, 60).unwrap();
    h.mqtt_handle_list[0]
        .devices
        .insert("dev1".to_string(), Data::new(Some("t".to_string()), None));
    assert_eq!(h.subscribe("a", "t"), Err(Error::TopicNotFound));
    assert!(h.mqtt_handle_list[0].mosquitto.subs.is_empty());
}

#[test]
fn subscribe_needs_a_session() {
    let mut h = MqttHelper::new("a").unwrap();
    assert_eq!(
        h.subscribe("a", "t"),
        Err(Error::MqttHelperSubscribe(ConnError::NotConnected))
    );
}

#[test]
fn unsubscribe_rejected_unless_every_record_carries_the_topic() {
    let mut h = MqttHelper::new("a").unwrap();
    h.connect("a", "broker", 1883, 60).unwrap();
    // The synthetic entry has no topic, so unsubscribe is rejected.
    assert_eq!(h.unsubscribe("a", "t"), Err(Error::TopicNotFound));
    assert!(h.mqtt_handle_list[0].mosquitto.unsubs.is_empty());
}

#[test]
fn unsubscribe_forwarded_when_every_record_carries_the_topic() {
    let mut h = MqttHelper::new("a").unwrap();
    h.connect("a", "broker", 1883, 60).unwrap();
    h.mqtt_handle_list[0]
        .devices
        .insert("a".to_string(), Data::new(Some("t".to_string()), Some("a".to_string())));
    assert_eq!(h.unsubscribe("a", "t"), Ok(()));
    assert_eq!(h.mqtt_handle_list[0].mosquitto.unsubs, vec!["t".to_string()]);
}

#[test]
fn unsubscribe_needs_a_session() {
    let mut h = MqttHelper::new("a").unwrap();
    h.mqtt_handle_list[0]
        .devices
        .insert("a".to_string(), Data::new(Some("t".to_string()), Some("a".to_string())));
    assert_eq!(
        h.unsubscribe("a", "t"),
        Err(Error::MqttHelperUnsubscribe(ConnError::NotConnected))
    );
}

#[test]
fn registered_connect_callback_gets_exactly_one_invocation_per_event() {
    let mut h = MqttHelper::new("a").unwrap();
    assert_eq!(h.set_connect_callback("a"), Ok(()));
    h.mqtt_handle_list[0].mosquitto.trigger_connect(3);
    assert_eq!(h.mqtt_handle_list[0].mosquitto.connect_calls, vec![3]);
}

#[test]
fn unregistered_connect_callback_gets_nothing() {
    let mut h = MqttHelper::new("a").unwrap();
    h.mqtt_handle_list[0].mosquitto.trigger_connect(3);
    assert!(h.mqtt_handle_list[0].mosquitto.connect_calls.is_empty());
}

#[test]
fn registered_disconnect_callback_gets_the_reported_code() {
    let mut h = MqttHelper::new("a").unwrap();
    assert_eq!(h.set_disconnect_callback("a"), Ok(()));
    h.mqtt_handle_list[0].mosquitto.trigger_disconnect(7);
    h.mqtt_handle_list[0].mosquitto.trigger_disconnect(0);
    assert_eq!(h.mqtt_handle_list[0].mosquitto.disconnect_calls, vec![7, 0]);
}
