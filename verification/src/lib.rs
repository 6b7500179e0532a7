//! A multi-client management layer over a single MQTT connection primitive.
//!
//! The crate tracks named client handles, each pairing a connection with its
//! client identifier and a device/topic map, and dispatches every lifecycle
//! operation (setup, connect, publish, subscribe, loop driving) through a
//! lookup by client identifier. The connection itself is a deterministic,
//! fully specified model of the collaborator capability that performs the
//! actual broker communication.

pub mod connection;
pub mod error;
pub mod framing;
pub mod model;
pub mod mqtt_helper;

pub use error::Error;
pub use model::data::Data;
pub use mqtt_helper::MqttHelper;
