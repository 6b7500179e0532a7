//! The device data record and the device/topic map.

use mqtt_helper::error::ConnError;
use mqtt_helper::model::device_map::DeviceMap;
use mqtt_helper::Data;
use mqtt_helper::Error;

#[test]
fn data_keeps_both_fields() {
    let d = Data::new(Some("t".to_string()), Some("dev".to_string()));
    assert_eq!(d.topic().as_deref(), Some("t"));
    assert_eq!(d.local_id().as_deref(), Some("dev"));
}

#[test]
fn data_equality_is_by_value() {
    let a = Data::new(Some("t".to_string()), None);
    let b = Data::new(Some("t".to_string()), None);
    let c = Data::new(None, None);
    assert_eq!(a, b);
    assert_ne!(a, c);
}

#[test]
fn topic_is_found_only_on_exact_match() {
    let d = Data::new(Some("t".to_string()), None);
    assert!(d.topic_is_found("t"));
    assert!(!d.topic_is_found("u"));
    let none = Data::new(None, None);
    assert!(!none.topic_is_found("t"));
}

#[test]
fn device_map_insert_and_get() {
    let mut m = DeviceMap::new();
    assert_eq!(m.len(), 0);
    m.insert("d1".to_string(), Data::new(None, Some("one".to_string())));
    m.insert("d2".to_string(), Data::new(Some("t".to_string()), None));
    assert_eq!(m.len(), 2);
    assert_eq!(m.get("d1").unwrap().local_id().as_deref(), Some("one"));
    assert_eq!(m.get("d2").unwrap().topic().as_deref(), Some("t"));
    assert!(m.get("d3").is_none());
}

#[test]
fn device_map_insert_replaces_an_existing_key() {
    let mut m = DeviceMap::new();
    m.insert("d1".to_string(), Data::new(None, None));
    m.insert("d1".to_string(), Data::new(Some("t".to_string()), None));
    assert_eq!(m.len(), 1);
    assert_eq!(m.get("d1").unwrap().topic().as_deref(), Some("t"));
}

#[test]
fn device_map_topic_scans() {
    let mut m = DeviceMap::new();
    m.insert("d1".to_string(), Data::new(Some("t".to_string()), None));
    m.insert("d2".to_string(), Data::new(None, None));
    assert!(m.any_topic_found("t"));
    assert!(!m.any_topic_found("u"));
    assert!(!m.all_topics_found("t"));
    m.insert("d2".to_string(), Data::new(Some("t".to_string()), None));
    assert!(m.all_topics_found("t"));
}

#[test]
fn empty_device_map_scans() {
    let m = DeviceMap::new();
    assert!(!m.any_topic_found("t"));
    // Vacuously, every record of an empty map carries any topic.
    assert!(m.all_topics_found("t"));
}

#[test]
fn error_messages_are_not_empty() {
    let errors = vec![
        Error::TopicNotFound,
        Error::ClientId,
        Error::ConnectionInit(ConnError::NulByte),
        Error::MqttHelperSetUserPass(ConnError::NulByte),
        Error::MqttHelperSetupTls(ConnError::NulByte),
        Error::MqttHelperConnect(ConnError::NulByte),
        Error::Wrapped(ConnError::NotConnected),
        Error::MqttHelperReconnect(ConnError::NotConnected),
        Error::MqttHelperSocket(ConnError::NotConnected),
        Error::MqttHelperRunLoop(ConnError::NotConnected),
        Error::MqttHelperRunLoopStart(ConnError::AlreadyStarted),
        Error::MqttHelperPayload,
        Error::MqttHelperPublish(ConnError::NulByte),
        Error::MqttHelperSubscribe(ConnError::NotConnected),
        Error::MqttHelperUnsubscribe(ConnError::NotConnected),
    ];
    for e in errors {
        assert!(!e.message().is_empty());
    }
}

#[test]
fn error_message_texts_match_the_kind() {
    assert_eq!(Error::ClientId.message(), "ClientId error");
    assert_eq!(Error::TopicNotFound.message(), "TopicNotFound error");
    assert_eq!(Error::MqttHelperPayload.message(), "MqttHelperPayload error");
}
