//! The connection capability: a deterministic, fully specified model of the
//! MQTT client primitive that a handle owns.
//!
//! The registry only orchestrates calls to this component; the wire protocol
//! itself is out of scope. The model records, as plain values, everything an
//! orchestrating caller can observe: the configured credentials and TLS file,
//! the session state, the registered callback channels and the event codes
//! delivered to them, the queue of pending outbound packets, and a log of the
//! write/housekeeping steps performed by the loop-driving operations.

use crate::error::ConnError;
use crate::framing::seq_has_nul;
use vstd::prelude::*;

verus! {

/// One pending outbound packet in the connection's write queue.
#[derive(Clone, Copy, Debug, PartialEq, Eq)]
pub enum Packet {
    Connect,
    Publish,
    Subscribe,
    Unsubscribe,
}

/// One network processing step performed by a loop-driving operation: a
/// bounded write step with its timeout, or one housekeeping (misc) step.
#[derive(Clone, Copy, Debug, PartialEq, Eq)]
pub enum IoStep {
    Write(i32),
    Misc,
}

/// A message handed to the publish primitive: the topic and the framed
/// null-terminated payload bytes.
#[derive(Clone, Debug, PartialEq, Eq)]
pub struct Message {
    pub topic: String,
    pub payload: Vec<u8>,
}

/// Abstract value of a published message.
#[verifier::ext_equal]
pub struct MessageModel {
    pub topic: Seq<char>,
    pub payload: Seq<u8>,
}

impl View for Message {
    type V = MessageModel;

    open spec fn view(&self) -> MessageModel {
        MessageModel { topic: self.topic@, payload: self.payload@ }
    }
}

/// Abstract state of a connection.
#[verifier::ext_equal]
pub struct ConnModel {
    /// The client identifier the connection was created with.
    pub client_id: Seq<char>,
    /// The configured username, once set.
    pub username: Option<Seq<char>>,
    /// The configured password, once set.
    pub password: Option<Seq<char>>,
    /// The CA certificate file configured for TLS, once set.
    pub ca_file: Option<Seq<char>>,
    /// Whether the callback machinery has been initialized.
    pub callbacks_ready: bool,
    /// Whether a broker session is currently established.
    pub connected: bool,
    /// The hostname of the last connect call, if any.
    pub host: Option<Seq<char>>,
    /// The port of the last connect call.
    pub port: i32,
    /// The keep-alive interval of the last connect call.
    pub keep_alive: i32,
    /// Whether the collaborator-managed background loop was started.
    pub background: bool,
    /// Whether a connect callback channel is registered.
    pub connect_cb: bool,
    /// Whether a disconnect callback channel is registered.
    pub disconnect_cb: bool,
    /// The result codes delivered to the connect callback, in order.
    pub connect_calls: Seq<i32>,
    /// The result codes delivered to the disconnect callback, in order.
    pub disconnect_calls: Seq<i32>,
    /// The queue of pending outbound packets, oldest first.
    pub outbox: Seq<Packet>,
    /// The write and housekeeping steps performed, in order.
    pub io_log: Seq<IoStep>,
    /// The messages handed to the publish primitive, in order.
    pub published: Seq<MessageModel>,
    /// The topics handed to the subscribe primitive, in order.
    pub subs: Seq<Seq<char>>,
    /// The topics handed to the unsubscribe primitive, in order.
    pub unsubs: Seq<Seq<char>>,
    /// The native socket descriptor reported while connected.
    pub socket_fd: i32,
}

/// The connection object owned by a client handle.
#[derive(Debug)]
pub struct Connection {
    pub client_id: String,
    pub username: Option<String>,
    pub password: Option<String>,
    pub ca_file: Option<String>,
    pub callbacks_ready: bool,
    pub connected: bool,
    pub host: Option<String>,
    pub port: i32,
    pub keep_alive: i32,
    pub background: bool,
    pub connect_cb: bool,
    pub disconnect_cb: bool,
    pub connect_calls: Vec<i32>,
    pub disconnect_calls: Vec<i32>,
    pub outbox: Vec<Packet>,
    pub io_log: Vec<IoStep>,
    pub published: Vec<Message>,
    pub subs: Vec<String>,
    pub unsubs: Vec<String>,
    pub socket_fd: i32,
}

impl View for Connection {
    type V = ConnModel;

    open spec fn view(&self) -> ConnModel {
        ConnModel {
            client_id: self.client_id@,
            username: crate::model::data::opt_str_view(self.username),
            password: crate::model::data::opt_str_view(self.password),
            ca_file: crate::model::data::opt_str_view(self.ca_file),
            callbacks_ready: self.callbacks_ready,
            connected: self.connected,
            host: crate::model::data::opt_str_view(self.host),
            port: self.port,
            keep_alive: self.keep_alive,
            background: self.background,
            connect_cb: self.connect_cb,
            disconnect_cb: self.disconnect_cb,
            connect_calls: self.connect_calls@,
            disconnect_calls: self.disconnect_calls@,
            outbox: self.outbox@,
            io_log: self.io_log@,
            published: self.published@.map_values(|m: Message| m@),
            subs: self.subs@.map_values(|s: String| s@),
            unsubs: self.unsubs@.map_values(|s: String| s@),
            socket_fd: self.socket_fd,
        }
    }
}

/// The state of a freshly constructed connection.
pub open spec fn initial_connection(id: Seq<char>) -> ConnModel {
    ConnModel {
        client_id: id,
        username: None,
        password: None,
        ca_file: None,
        callbacks_ready: false,
        connected: false,
        host: None,
        port: 0,
        keep_alive: 0,
        background: false,
        connect_cb: false,
        disconnect_cb: false,
        connect_calls: Seq::empty(),
        disconnect_calls: Seq::empty(),
        outbox: Seq::empty(),
        io_log: Seq::empty(),
        published: Seq::empty(),
        subs: Seq::empty(),
        unsubs: Seq::empty(),
        socket_fd: 0,
    }
}

// Transitions: the new abstract state after each successful primitive call.

pub open spec fn userpass_step(c: ConnModel, u: Seq<char>, p: Seq<char>) -> ConnModel {
    ConnModel { username: Some(u), password: Some(p), ..c }
}

pub open spec fn tls_step(c: ConnModel, path: Seq<char>) -> ConnModel {
    ConnModel { ca_file: Some(path), ..c }
}

pub open spec fn callback_init_step(c: ConnModel) -> ConnModel {
    ConnModel { callbacks_ready: true, ..c }
}

pub open spec fn connect_step(c: ConnModel, host: Seq<char>, port: i32, keep_alive: i32) -> ConnModel {
    ConnModel {
        connected: true,
        host: Some(host),
        port: port,
        keep_alive: keep_alive,
        outbox: c.outbox.push(Packet::Connect),
        ..c
    }
}

pub open spec fn disconnect_step(c: ConnModel) -> ConnModel {
    ConnModel { connected: false, ..c }
}

pub open spec fn reconnect_step(c: ConnModel) -> ConnModel {
    ConnModel { connected: true, outbox: c.outbox.push(Packet::Connect), ..c }
}

pub open spec fn loop_start_step(c: ConnModel) -> ConnModel {
    ConnModel { background: true, ..c }
}

/// One bounded write step: the oldest pending packet leaves the queue (if
/// any is pending) and the step is logged with its timeout.
pub open spec fn write_step(c: ConnModel, timeout: i32) -> ConnModel {
    ConnModel {
        outbox: if c.outbox.len() > 0 {
            c.outbox.drop_first()
        } else {
            c.outbox
        },
        io_log: c.io_log.push(IoStep::Write(timeout)),
        ..c
    }
}

/// `k` write steps in a row: the first `k` pending packets leave the queue
/// and `k` write steps are logged, each with the same timeout.
pub open spec fn writes_flushed(c: ConnModel, timeout: i32, k: nat) -> ConnModel {
    ConnModel {
        outbox: c.outbox.skip(k as int),
        io_log: c.io_log + Seq::new(k, |i: int| IoStep::Write(timeout)),
        ..c
    }
}

/// One housekeeping step (keepalive ping and the like).
pub open spec fn misc_step(c: ConnModel) -> ConnModel {
    ConnModel { io_log: c.io_log.push(IoStep::Misc), ..c }
}

pub open spec fn set_connect_cb_step(c: ConnModel) -> ConnModel {
    ConnModel { connect_cb: true, ..c }
}

pub open spec fn set_disconnect_cb_step(c: ConnModel) -> ConnModel {
    ConnModel { disconnect_cb: true, ..c }
}

pub open spec fn publish_step(c: ConnModel, topic: Seq<char>, framed: Seq<u8>) -> ConnModel {
    ConnModel {
        published: c.published.push(MessageModel { topic: topic, payload: framed }),
        outbox: c.outbox.push(Packet::Publish),
        ..c
    }
}

pub open spec fn subscribe_step(c: ConnModel, topic: Seq<char>) -> ConnModel {
    ConnModel {
        subs: c.subs.push(topic),
        outbox: c.outbox.push(Packet::Subscribe),
        ..c
    }
}

pub open spec fn unsubscribe_step(c: ConnModel, topic: Seq<char>) -> ConnModel {
    ConnModel {
        unsubs: c.unsubs.push(topic),
        outbox: c.outbox.push(Packet::Unsubscribe),
        ..c
    }
}

// Failure conditions: the error each primitive reports, if any. Every
// primitive either fails with exactly this error and leaves the connection
// unchanged, or succeeds and takes the matching transition.

pub open spec fn frame_err(s: Seq<char>) -> Option<ConnError> {
    if seq_has_nul(s) {
        Some(ConnError::NulByte)
    } else {
        None
    }
}

pub open spec fn userpass_err(u: Seq<char>, p: Seq<char>) -> Option<ConnError> {
    if seq_has_nul(u) || seq_has_nul(p) {
        Some(ConnError::NulByte)
    } else {
        None
    }
}

pub open spec fn disconnect_err(c: ConnModel) -> Option<ConnError> {
    if !c.connected {
        Some(ConnError::NotConnected)
    } else {
        None
    }
}

pub open spec fn reconnect_err(c: ConnModel) -> Option<ConnError> {
    if c.host is None {
        Some(ConnError::NotConnected)
    } else {
        None
    }
}

pub open spec fn socket_err(c: ConnModel) -> Option<ConnError> {
    if !c.connected {
        Some(ConnError::NotConnected)
    } else {
        None
    }
}

pub open spec fn loop_err(c: ConnModel) -> Option<ConnError> {
    if !c.connected {
        Some(ConnError::NotConnected)
    } else {
        None
    }
}

pub open spec fn loop_start_err(c: ConnModel) -> Option<ConnError> {
    if c.background {
        Some(ConnError::AlreadyStarted)
    } else {
        None
    }
}

pub open spec fn prim_err(c: ConnModel, topic: Seq<char>) -> Option<ConnError> {
    if seq_has_nul(topic) {
        Some(ConnError::NulByte)
    } else if !c.connected {
        Some(ConnError::NotConnected)
    } else {
        None
    }
}

/// The number of packets one blocking loop iteration may process.
pub open spec fn packet_cap(max_packets: i32) -> nat {
    if max_packets < 1 {
        1nat
    } else {
        max_packets as nat
    }
}

impl Connection {
    /// Creates a connection for the given client identifier. Fails exactly
    /// when the identifier cannot be framed as a C string.
    pub fn new(client_id: &str) -> (r: Result<Connection, ConnError>)
        ensures
            match r {
                Ok(c) => !seq_has_nul(client_id@) && c@ == initial_connection(client_id@),
                Err(e) => seq_has_nul(client_id@) && e == ConnError::NulByte,
            },
    {
        if crate::framing::contains_nul(client_id) {
            return Err(ConnError::NulByte);
        }
        let c = Connection {
            client_id: client_id.to_owned(),
            username: None,
            password: None,
            ca_file: None,
            callbacks_ready: false,
            connected: false,
            host: None,
            port: 0,
            keep_alive: 0,
            background: false,
            connect_cb: false,
            disconnect_cb: false,
            connect_calls: Vec::new(),
            disconnect_calls: Vec::new(),
            outbox: Vec::new(),
            io_log: Vec::new(),
            published: Vec::new(),
            subs: Vec::new(),
            unsubs: Vec::new(),
            socket_fd: 0,
        };
        proof {
            assert(c@ =~= initial_connection(client_id@));
        }
        Ok(c)
    }

    /// Configures the username and password used at connect time.
    pub fn set_username_password(&mut self, username: &str, password: &str) -> (r: Result<
        (),
        ConnError,
    >)
        ensures
            match userpass_err(username@, password@) {
                Some(e) => r == Err::<(), ConnError>(e) && final(self)@ == old(self)@,
                None => r == Ok::<(), ConnError>(()) && final(self)@ == userpass_step(
                    old(self)@,
                    username@,
                    password@,
                ),
            },
    {
        if crate::framing::contains_nul(username) || crate::framing::contains_nul(password) {
            return Err(ConnError::NulByte);
        }
        self.username = Some(username.to_owned());
        self.password = Some(password.to_owned());
        proof {
            assert(self@ =~= userpass_step(old(self)@, username@, password@));
        }
        Ok(())
    }

    /// Configures TLS with the given CA certificate file path.
    pub fn tls_set_using_ca_file(&mut self, ca_file: &str) -> (r: Result<(), ConnError>)
        ensures
            match frame_err(ca_file@) {
                Some(e) => r == Err::<(), ConnError>(e) && final(self)@ == old(self)@,
                None => r == Ok::<(), ConnError>(()) && final(self)@ == tls_step(
                    old(self)@,
                    ca_file@,
                ),
            },
    {
        if crate::framing::contains_nul(ca_file) {
            return Err(ConnError::NulByte);
        }
        self.ca_file = Some(ca_file.to_owned());
        proof {
            assert(self@ =~= tls_step(old(self)@, ca_file@));
        }
        Ok(())
    }

    /// Initializes the callback machinery.
    pub fn callback_init(&mut self)
        ensures
            final(self)@ == callback_init_step(old(self)@),
    {
        self.callbacks_ready = true;
        proof {
            assert(self@ =~= callback_init_step(old(self)@));
        }
    }

    /// Establishes a session with the broker and queues the connect packet.
    pub fn connect(&mut self, host: &str, port: i32, keep_alive: i32) -> (r: Result<
        (),
        ConnError,
    >)
        ensures
            match frame_err(host@) {
                Some(e) => r == Err::<(), ConnError>(e) && final(self)@ == old(self)@,
                None => r == Ok::<(), ConnError>(()) && final(self)@ == connect_step(
                    old(self)@,
                    host@,
                    port,
                    keep_alive,
                ),
            },
    {
        if crate::framing::contains_nul(host) {
            return Err(ConnError::NulByte);
        }
        self.connected = true;
        self.host = Some(host.to_owned());
        self.port = port;
        self.keep_alive = keep_alive;
        self.outbox.push(Packet::Connect);
        proof {
            assert(self@ =~= connect_step(old(self)@, host@, port, keep_alive));
        }
        Ok(())
    }

    /// Closes the session. Fails when there is none.
    pub fn disconnect(&mut self) -> (r: Result<(), ConnError>)
        ensures
            match disconnect_err(old(self)@) {
                Some(e) => r == Err::<(), ConnError>(e) && final(self)@ == old(self)@,
                None => r == Ok::<(), ConnError>(()) && final(self)@ == disconnect_step(
                    old(self)@,
                ),
            },
    {
        if !self.connected {
            return Err(ConnError::NotConnected);
        }
        self.connected = false;
        proof {
            assert(self@ =~= disconnect_step(old(self)@));
        }
        Ok(())
    }

    /// Re-establishes the session with the parameters of the last connect.
    /// Fails when no connect was ever performed.
    pub fn reconnect(&mut self) -> (r: Result<(), ConnError>)
        ensures
            match reconnect_err(old(self)@) {
                Some(e) => r == Err::<(), ConnError>(e) && final(self)@ == old(self)@,
                None => r == Ok::<(), ConnError>(()) && final(self)@ == reconnect_step(
                    old(self)@,
                ),
            },
    {
        if self.host.is_none() {
            return Err(ConnError::NotConnected);
        }
        self.connected = true;
        self.outbox.push(Packet::Connect);
        proof {
            assert(self@ =~= reconnect_step(old(self)@));
        }
        Ok(())
    }

    /// Reports the native socket descriptor of the live session.
    pub fn socket(&self) -> (r: Result<i32, ConnError>)
        ensures
            match socket_err(self@) {
                Some(e) => r == Err::<i32, ConnError>(e),
                None => r == Ok::<i32, ConnError>(self@.socket_fd),
            },
    {
        if !self.connected {
            return Err(ConnError::NotConnected);
        }
        Ok(self.socket_fd)
    }

    /// Whether outbound data is pending.
    pub fn loop_want_write(&self) -> (r: bool)
        ensures
            r == (self@.outbox.len() > 0),
    {
        self.outbox.len() > 0
    }

    /// Performs one bounded write step. Fails when there is no session.
    pub fn loop_write(&mut self, timeout: i32) -> (r: Result<(), ConnError>)
        ensures
            match loop_err(old(self)@) {
                Some(e) => r == Err::<(), ConnError>(e) && final(self)@ == old(self)@,
                None => r == Ok::<(), ConnError>(()) && final(self)@ == write_step(
                    old(self)@,
                    timeout,
                ),
            },
    {
        if !self.connected {
            return Err(ConnError::NotConnected);
        }
        if self.outbox.len() > 0 {
            self.outbox.remove(0);
            proof {
                assert(self.outbox@ =~= old(self).outbox@.drop_first());
            }
        }
        self.io_log.push(IoStep::Write(timeout));
        proof {
            assert(self@ =~= write_step(old(self)@, timeout));
        }
        Ok(())
    }

    /// Performs one housekeeping step. Fails when there is no session.
    pub fn loop_misc(&mut self) -> (r: Result<(), ConnError>)
        ensures
            match loop_err(old(self)@) {
                Some(e) => r == Err::<(), ConnError>(e) && final(self)@ == old(self)@,
                None => r == Ok::<(), ConnError>(()) && final(self)@ == misc_step(old(self)@),
            },
    {
        if !self.connected {
            return Err(ConnError::NotConnected);
        }
        self.io_log.push(IoStep::Misc);
        proof {
            assert(self@ =~= misc_step(old(self)@));
        }
        Ok(())
    }

    /// Drives one blocking iteration of network processing: writes up to
    /// `max_packets` pending packets (at least one slot), then performs one
    /// housekeeping step. Fails when there is no session.
    pub fn mqtt_loop(&mut self, timeout: i32, max_packets: i32) -> (r: Result<(), ConnError>)
        ensures
            match loop_err(old(self)@) {
                Some(e) => r == Err::<(), ConnError>(e) && final(self)@ == old(self)@,
                None => r == Ok::<(), ConnError>(()) && final(self)@ == misc_step(
                    writes_flushed(
                        old(self)@,
                        timeout,
                        vstd::math::min(
                            old(self)@.outbox.len() as int,
                            packet_cap(max_packets) as int,
                        ) as nat,
                    ),
                ),
            },
    {
        if !self.connected {
            return Err(ConnError::NotConnected);
        }
        let cap: usize = if max_packets < 1 {
            1
        } else {
            max_packets as usize
        };
        let mut k: usize = 0;
        let ghost c0 = self@;
        while k < cap && self.outbox.len() > 0
            invariant
                self@ == writes_flushed(c0, timeout, k as nat),
                k <= packet_cap(max_packets),
                cap == packet_cap(max_packets),
                k < cap ==> self@.outbox =~= c0.outbox.skip(k as int),
                self.connected,
                c0.outbox.len() >= k,
            decreases self.outbox.len(),
        {
            self.outbox.remove(0);
            self.io_log.push(IoStep::Write(timeout));
            proof {
                assert(self@.outbox =~= c0.outbox.skip(k + 1 as int));
                assert(self@.io_log =~= c0.io_log + Seq::new(
                    (k + 1) as nat,
                    |i: int| IoStep::Write(timeout),
                ));
                assert(self@ =~= writes_flushed(c0, timeout, (k + 1) as nat));
            }
            k = k + 1;
        }
        proof {
            assert(k as int == vstd::math::min(
                c0.outbox.len() as int,
                packet_cap(max_packets) as int,
            ));
        }
        self.io_log.push(IoStep::Misc);
        proof {
            assert(self@ =~= misc_step(writes_flushed(c0, timeout, k as nat)));
        }
        Ok(())
    }

    /// Starts the collaborator-managed background processing loop. Fails
    /// when it was already started.
    pub fn mqtt_loop_start(&mut self) -> (r: Result<(), ConnError>)
        ensures
            match loop_start_err(old(self)@) {
                Some(e) => r == Err::<(), ConnError>(e) && final(self)@ == old(self)@,
                None => r == Ok::<(), ConnError>(()) && final(self)@ == loop_start_step(
                    old(self)@,
                ),
            },
    {
        if self.background {
            return Err(ConnError::AlreadyStarted);
        }
        self.background = true;
        proof {
            assert(self@ =~= loop_start_step(old(self)@));
        }
        Ok(())
    }

    /// Registers the connect callback channel: from now on, every connect
    /// event delivers its result code to `connect_calls`.
    pub fn set_connect_callback(&mut self)
        ensures
            final(self)@ == set_connect_cb_step(old(self)@),
    {
        self.connect_cb = true;
        proof {
            assert(self@ =~= set_connect_cb_step(old(self)@));
        }
    }

    /// Registers the disconnect callback channel.
    pub fn set_disconnect_callback(&mut self)
        ensures
            final(self)@ == set_disconnect_cb_step(old(self)@),
    {
        self.disconnect_cb = true;
        proof {
            assert(self@ =~= set_disconnect_cb_step(old(self)@));
        }
    }

    /// Delivers a connect event with the given result code: exactly one
    /// invocation of the registered callback channel, or nothing when none
    /// is registered.
    pub fn trigger_connect(&mut self, rc: i32)
        ensures
            old(self)@.connect_cb ==> final(self)@ == (ConnModel {
                connect_calls: old(self)@.connect_calls.push(rc),
                ..old(self)@
            }),
            !old(self)@.connect_cb ==> final(self)@ == old(self)@,
    {
        if self.connect_cb {
            self.connect_calls.push(rc);
            proof {
                assert(self@ =~= (ConnModel {
                    connect_calls: old(self)@.connect_calls.push(rc),
                    ..old(self)@
                }));
            }
        }
    }

    /// Delivers a disconnect event with the given result code.
    pub fn trigger_disconnect(&mut self, rc: i32)
        ensures
            old(self)@.disconnect_cb ==> final(self)@ == (ConnModel {
                disconnect_calls: old(self)@.disconnect_calls.push(rc),
                ..old(self)@
            }),
            !old(self)@.disconnect_cb ==> final(self)@ == old(self)@,
    {
        if self.disconnect_cb {
            self.disconnect_calls.push(rc);
            proof {
                assert(self@ =~= (ConnModel {
                    disconnect_calls: old(self)@.disconnect_calls.push(rc),
                    ..old(self)@
                }));
            }
        }
    }

    /// Hands a framed message to the publish primitive and queues the
    /// publish packet.
    pub fn publish(&mut self, topic: &str, payload: Vec<u8>) -> (r: Result<(), ConnError>)
        ensures
            match prim_err(old(self)@, topic@) {
                Some(e) => r == Err::<(), ConnError>(e) && final(self)@ == old(self)@,
                None => r == Ok::<(), ConnError>(()) && final(self)@ == publish_step(
                    old(self)@,
                    topic@,
                    payload@,
                ),
            },
    {
        if crate::framing::contains_nul(topic) {
            return Err(ConnError::NulByte);
        }
        if !self.connected {
            return Err(ConnError::NotConnected);
        }
        self.published.push(Message { topic: topic.to_owned(), payload: payload });
        self.outbox.push(Packet::Publish);
        proof {
            assert(self@ =~= publish_step(old(self)@, topic@, payload@));
        }
        Ok(())
    }

    /// Hands a topic to the subscribe primitive and queues the packet.
    pub fn subscribe(&mut self, topic: &str) -> (r: Result<(), ConnError>)
        ensures
            match prim_err(old(self)@, topic@) {
                Some(e) => r == Err::<(), ConnError>(e) && final(self)@ == old(self)@,
                None => r == Ok::<(), ConnError>(()) && final(self)@ == subscribe_step(
                    old(self)@,
                    topic@,
                ),
            },
    {
        if crate::framing::contains_nul(topic) {
            return Err(ConnError::NulByte);
        }
        if !self.connected {
            return Err(ConnError::NotConnected);
        }
        self.subs.push(topic.to_owned());
        self.outbox.push(Packet::Subscribe);
        proof {
            assert(self@ =~= subscribe_step(old(self)@, topic@));
        }
        Ok(())
    }

    /// Hands a topic to the unsubscribe primitive and queues the packet.
    pub fn unsubscribe(&mut self, topic: &str) -> (r: Result<(), ConnError>)
        ensures
            match prim_err(old(self)@, topic@) {
                Some(e) => r == Err::<(), ConnError>(e) && final(self)@ == old(self)@,
                None => r == Ok::<(), ConnError>(()) && final(self)@ == unsubscribe_step(
                    old(self)@,
                    topic@,
                ),
            },
    {
        if crate::framing::contains_nul(topic) {
            return Err(ConnError::NulByte);
        }
        if !self.connected {
            return Err(ConnError::NotConnected);
        }
        self.unsubs.push(topic.to_owned());
        self.outbox.push(Packet::Unsubscribe);
        proof {
            assert(self@ =~= unsubscribe_step(old(self)@, topic@));
        }
        Ok(())
    }
}

} // verus!
