//! Error handling: every failure of a registry operation is represented as a
//! value of `Error`; collaborator failures are wrapped per operation.

use vstd::prelude::*;

verus! {

/// A failure reported by the connection collaborator.
#[derive(Clone, Copy, Debug, PartialEq, Eq)]
pub enum ConnError {
    /// A string argument held an interior null byte and could not be framed
    /// as a C string.
    NulByte,
    /// The operation needs a live (or previously established) broker
    /// connection, and there is none.
    NotConnected,
    /// The background processing loop was already started.
    AlreadyStarted,
}

/// The error taxonomy of the registry. Operation-specific variants wrap the
/// collaborator failure that the corresponding call reported.
#[derive(Clone, Copy, Debug, PartialEq, Eq)]
pub enum Error {
    /// TopicNotFound error: subscribe/unsubscribe topic-state mismatch.
    TopicNotFound,
    /// ClientId error: no handle matches the requested client identifier.
    ClientId,
    /// Construction of the underlying connection failed.
    ConnectionInit(ConnError),
    /// MqttHelperSetUserPass error.
    MqttHelperSetUserPass(ConnError),
    /// MqttHelperSetupTls error.
    MqttHelperSetupTls(ConnError),
    /// MqttHelperConnect error.
    MqttHelperConnect(ConnError),
    /// Passthrough of a collaborator error not otherwise classified.
    Wrapped(ConnError),
    /// MqttHelperReconnect error.
    MqttHelperReconnect(ConnError),
    /// MqttHelperSocket error.
    MqttHelperSocket(ConnError),
    /// MqttHelperRunLoop error.
    MqttHelperRunLoop(ConnError),
    /// MqttHelperRunLoopStart error.
    MqttHelperRunLoopStart(ConnError),
    /// MqttHelperPayload error: the payload holds an embedded null byte.
    MqttHelperPayload,
    /// MqttHelperPublish error.
    MqttHelperPublish(ConnError),
    /// MqttHelperSubscribe error.
    MqttHelperSubscribe(ConnError),
    /// MqttHelperUnsubscribe error.
    MqttHelperUnsubscribe(ConnError),
}

/// The printed representation of each error kind.
pub open spec fn message_spec(e: Error) -> Seq<char> {
    match e {
        Error::TopicNotFound => "TopicNotFound error"@,
        Error::ClientId => "ClientId error"@,
        Error::ConnectionInit(_) => "ConnectionInit error"@,
        Error::MqttHelperSetUserPass(_) => "Set User&Password error"@,
        Error::MqttHelperSetupTls(_) => "SetupTls error"@,
        Error::MqttHelperConnect(_) => "MqttHelperConnect error"@,
        Error::Wrapped(_) => "Wrapped error"@,
        Error::MqttHelperReconnect(_) => "MqttHelperReconnect error"@,
        Error::MqttHelperSocket(_) => "MqttHelperSocket error"@,
        Error::MqttHelperRunLoop(_) => "MqttHelperRunLoop error"@,
        Error::MqttHelperRunLoopStart(_) => "MqttHelperRunLoopStart error"@,
        Error::MqttHelperPayload => "MqttHelperPayload error"@,
        Error::MqttHelperPublish(_) => "MqttHelperPublish error"@,
        Error::MqttHelperSubscribe(_) => "MqttHelperSubscribe error"@,
        Error::MqttHelperUnsubscribe(_) => "MqttHelperUnsubscribe error"@,
    }
}

impl Error {
    /// The printed representation of an error kind.
    pub fn message(&self) -> (r: &'static str)
        ensures
            r@ == message_spec(*self),
            r@.len() > 0,
    {
        let r = match self {
            Error::TopicNotFound => "TopicNotFound error",
            Error::ClientId => "ClientId error",
            Error::ConnectionInit(_) => "ConnectionInit error",
            Error::MqttHelperSetUserPass(_) => "Set User&Password error",
            Error::MqttHelperSetupTls(_) => "SetupTls error",
            Error::MqttHelperConnect(_) => "MqttHelperConnect error",
            Error::Wrapped(_) => "Wrapped error",
            Error::MqttHelperReconnect(_) => "MqttHelperReconnect error",
            Error::MqttHelperSocket(_) => "MqttHelperSocket error",
            Error::MqttHelperRunLoop(_) => "MqttHelperRunLoop error",
            Error::MqttHelperRunLoopStart(_) => "MqttHelperRunLoopStart error",
            Error::MqttHelperPayload => "MqttHelperPayload error",
            Error::MqttHelperPublish(_) => "MqttHelperPublish error",
            Error::MqttHelperSubscribe(_) => "MqttHelperSubscribe error",
            Error::MqttHelperUnsubscribe(_) => "MqttHelperUnsubscribe error",
        };
        proof {
            reveal_strlit("TopicNotFound error");
            reveal_strlit("ClientId error");
            reveal_strlit("ConnectionInit error");
            reveal_strlit("Set User&Password error");
            reveal_strlit("SetupTls error");
            reveal_strlit("MqttHelperConnect error");
            reveal_strlit("Wrapped error");
            reveal_strlit("MqttHelperReconnect error");
            reveal_strlit("MqttHelperSocket error");
            reveal_strlit("MqttHelperRunLoop error");
            reveal_strlit("MqttHelperRunLoopStart error");
            reveal_strlit("MqttHelperPayload error");
            reveal_strlit("MqttHelperPublish error");
            reveal_strlit("MqttHelperSubscribe error");
            reveal_strlit("MqttHelperUnsubscribe error");
        }
        r
    }
}

} // verus!
