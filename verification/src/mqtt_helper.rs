//! The client-handle registry: an ordered collection of client handles,
//! each pairing a connection with its client identifier and its device/topic
//! map. Every public operation supplies a client identifier; the registry
//! performs a linear lookup (first match wins) and, on success, forwards the
//! possibly validated request to that handle's connection; on failure it
//! reports `ClientId` before any collaborator call is attempted.

use crate::connection::{
    callback_init_step, connect_step, disconnect_err, disconnect_step, frame_err,
    initial_connection, loop_err, loop_start_err, loop_start_step, misc_step, packet_cap,
    prim_err, publish_step, reconnect_err, reconnect_step, set_connect_cb_step,
    set_disconnect_cb_step, socket_err, subscribe_step, tls_step, unsubscribe_step,
    userpass_err, userpass_step, writes_flushed, ConnModel, Connection,
};
use crate::error::{ConnError, Error};
use crate::framing::seq_has_nul;
use crate::model::data::{Data, DataModel};
use crate::model::device_map::{all_topics_known, topic_known, DeviceMap};
use vstd::prelude::*;
use vstd::string::StringSliceAdditionalSpecFns;

verus! {

/// Abstract value of one client handle.
#[verifier::ext_equal]
pub struct HandleModel {
    pub conn: ConnModel,
    pub client_id: Seq<char>,
    pub devices: Seq<(Seq<char>, DataModel)>,
}

/// One client handle: a connection, its client identifier, and its
/// device/topic map.
#[derive(Debug)]
pub struct MqttHandle {
    pub mosquitto: Connection,
    pub client_id: String,
    pub devices: DeviceMap,
}

impl View for MqttHandle {
    type V = HandleModel;

    open spec fn view(&self) -> HandleModel {
        HandleModel { conn: self.mosquitto@, client_id: self.client_id@, devices: self.devices@ }
    }
}

/// The registry of client handles.
#[derive(Debug)]
pub struct MqttHelper {
    pub mqtt_handle_list: Vec<MqttHandle>,
}

impl View for MqttHelper {
    type V = Seq<HandleModel>;

    open spec fn view(&self) -> Seq<HandleModel> {
        self.mqtt_handle_list@.map_values(|h: MqttHandle| h@)
    }
}

/// Whether some handle carries the given client identifier.
pub open spec fn has_handle(hs: Seq<HandleModel>, id: Seq<char>) -> bool {
    exists|i: int| 0 <= i < hs.len() && hs[i].client_id == id
}

/// Whether `i` is the first handle carrying the given client identifier.
pub open spec fn is_first_match(hs: Seq<HandleModel>, id: Seq<char>, i: int) -> bool {
    &&& 0 <= i < hs.len()
    &&& hs[i].client_id == id
    &&& forall|j: int| 0 <= j < i ==> hs[j].client_id != id
}

/// The position of the first handle carrying the given client identifier.
pub open spec fn first_match(hs: Seq<HandleModel>, id: Seq<char>) -> int
    decreases hs.len(),
{
    if hs.len() == 0 {
        0
    } else if hs[0].client_id == id {
        0
    } else {
        1 + first_match(hs.drop_first(), id)
    }
}

/// Where some handle carries the identifier, `first_match` is the position
/// of the first one.
pub proof fn lemma_first_match_exists(hs: Seq<HandleModel>, id: Seq<char>)
    requires
        has_handle(hs, id),
    ensures
        is_first_match(hs, id, first_match(hs, id)),
    decreases hs.len(),
{
    if hs.len() > 0 && hs[0].client_id != id {
        let tail = hs.drop_first();
        let w = choose|i: int| 0 <= i < hs.len() && hs[i].client_id == id;
        assert(tail[w - 1] == hs[w]);
        lemma_first_match_exists(tail, id);
        let f = first_match(tail, id);
        assert(hs[f + 1] == tail[f]);
        assert forall|j: int| 0 <= j < f + 1 implies hs[j].client_id != id by {
            if j > 0 {
                assert(tail[j - 1] == hs[j]);
            }
        }
        assert(is_first_match(hs, id, f + 1));
    }
}

/// A position known to be a first match is the first match.
pub proof fn lemma_first_match_is(hs: Seq<HandleModel>, id: Seq<char>, i: int)
    requires
        is_first_match(hs, id, i),
    ensures
        has_handle(hs, id),
        first_match(hs, id) == i,
{
    assert(has_handle(hs, id));
    lemma_first_match_exists(hs, id);
    let j = first_match(hs, id);
    if i < j {
        assert(hs[i].client_id == id);
    } else if j < i {
        assert(hs[j].client_id == id);
    }
}

/// The registry after an operation that replaced only the connection state
/// of the handle at position `i`.
pub open spec fn updated_conn(
    pre: Seq<HandleModel>,
    post: Seq<HandleModel>,
    i: int,
    c: ConnModel,
) -> bool {
    post == pre.update(i, (HandleModel { conn: c, ..pre[i] }))
}

/// Replacing a handle's connection state keeps every lookup result.
pub proof fn lemma_updated_conn_keeps_lookup(
    pre: Seq<HandleModel>,
    post: Seq<HandleModel>,
    i: int,
    c: ConnModel,
    id: Seq<char>,
)
    requires
        updated_conn(pre, post, i, c),
        is_first_match(pre, id, i),
    ensures
        is_first_match(post, id, i),
        first_match(post, id) == i,
        post[i].conn == c,
        post[i].devices == pre[i].devices,
{
    assert forall|l: int| 0 <= l < i implies post[l].client_id != id by {
        assert(post[l] == pre[l]);
    }
    lemma_first_match_is(post, id, i);
}

/// The single handle a registry is constructed with: a fresh connection,
/// the client identifier, and a device map holding exactly one entry keyed
/// by that identifier, with no topic and the identifier as local id.
pub open spec fn new_handle_model(id: Seq<char>) -> HandleModel {
    HandleModel {
        conn: initial_connection(id),
        client_id: id,
        devices: seq![(id, DataModel { topic: None, local_id: Some(id) })],
    }
}

impl MqttHelper {
    ///  Find and fetch MQTT handler: the position of the first handle with
    ///  the given client identifier.
    fn find_handler(&self, client_id: &str) -> (r: Option<usize>)
        ensures
            match r {
                Some(i) => is_first_match(self@, client_id@, i as int),
                None => !has_handle(self@, client_id@),
            },
    {
        let needle = client_id.to_owned();
        let mut i: usize = 0;
        while i < self.mqtt_handle_list.len()
            invariant
                i <= self@.len(),
                needle@ == client_id@,
                self@.len() == self.mqtt_handle_list@.len(),
                forall|j: int| 0 <= j < i ==> self@[j].client_id != client_id@,
            decreases self.mqtt_handle_list@.len() - i,
        {
            if self.mqtt_handle_list[i].client_id == needle {
                return Some(i);
            }
            i = i + 1;
        }
        None
    }

    /// Builds a registry holding exactly one handle for the given client
    /// identifier. Fails, creating nothing, exactly when the underlying
    /// connection's constructor fails.
    pub fn new(client_id: &str) -> (r: Result<MqttHelper, Error>)
        ensures
            match r {
                Ok(h) => !seq_has_nul(client_id@) && h@ == seq![new_handle_model(client_id@)],
                Err(e) => seq_has_nul(client_id@) && e == Error::ConnectionInit(
                    ConnError::NulByte,
                ),
            },
    {
        let mosquitto_conn = match Connection::new(client_id) {
            Ok(c) => c,
            Err(e) => {
                return Err(Error::ConnectionInit(e));
            },
        };
        let mut devices_map = DeviceMap::new();
        let data = Data::new(None, Some(client_id.to_owned()));
        devices_map.insert(client_id.to_owned(), data);
        let mqtt_handle = MqttHandle {
            mosquitto: mosquitto_conn,
            client_id: client_id.to_owned(),
            devices: devices_map,
        };
        let mut mqtt_handle_list: Vec<MqttHandle> = Vec::new();
        mqtt_handle_list.push(mqtt_handle);
        let h = MqttHelper { mqtt_handle_list };
        proof {
            assert(h@ =~~= seq![new_handle_model(client_id@)]);
        }
        Ok(h)
    }

    /// Setup user & password.
    fn setup_userpass(&mut self, client_id: &str, username: &str, password: &str) -> (r: Result<
        (),
        Error,
    >)
        ensures
            !has_handle(old(self)@, client_id@) ==> r == Err::<(), Error>(Error::ClientId)
                && final(self)@ == old(self)@,
            has_handle(old(self)@, client_id@) ==> ({
                let i = first_match(old(self)@, client_id@);
                match userpass_err(username@, password@) {
                    Some(e) => r == Err::<(), Error>(Error::MqttHelperSetUserPass(e)) && final(self)@ == old(self)@,
                    None => r == Ok::<(), Error>(()) && updated_conn(
                        old(self)@,
                        final(self)@,
                        i,
                        userpass_step(old(self)@[i].conn, username@, password@),
                    ),
                }
            }),
    {
        let idx = match self.find_handler(client_id) {
            Some(i) => i,
            None => {
                return Err(Error::ClientId);
            },
        };
        proof {
            lemma_first_match_is(old(self)@, client_id@, idx as int);
        }
        let res = self.mqtt_handle_list[idx].mosquitto.set_username_password(username, password);
        match res {
            Ok(()) => {
                proof {
                    assert(final(self)@ =~= old(self)@.update(
                        idx as int,
                        (HandleModel {
                            conn: userpass_step(old(self)@[idx as int].conn, username@, password@),
                            ..old(self)@[idx as int]
                        }),
                    ));
                }
                Ok(())
            },
            Err(e) => {
                proof {
                    assert(final(self)@ =~= old(self)@);
                }
                Err(Error::MqttHelperSetUserPass(e))
            },
        }
    }

    /// Setup TLS: configures the CA certificate file when one is supplied,
    /// and does nothing otherwise.
    fn setup_tls(&mut self, client_id: &str, ca_cert: Option<&str>) -> (r: Result<(), Error>)
        ensures
            !has_handle(old(self)@, client_id@) ==> r == Err::<(), Error>(Error::ClientId)
                && final(self)@ == old(self)@,
            has_handle(old(self)@, client_id@) ==> ({
                let i = first_match(old(self)@, client_id@);
                match ca_cert {
                    None => r == Ok::<(), Error>(()) && final(self)@ == old(self)@,
                    Some(path) => match frame_err(path@) {
                        Some(e) => r == Err::<(), Error>(Error::MqttHelperSetupTls(e)) && final(self)@ == old(self)@,
                        None => r == Ok::<(), Error>(()) && updated_conn(
                            old(self)@,
                            final(self)@,
                            i,
                            tls_step(old(self)@[i].conn, path@),
                        ),
                    },
                }
            }),
    {
        let idx = match self.find_handler(client_id) {
            Some(i) => i,
            None => {
                return Err(Error::ClientId);
            },
        };
        proof {
            lemma_first_match_is(old(self)@, client_id@, idx as int);
        }
        match ca_cert {
            None => {
                proof {
                    assert(final(self)@ =~= old(self)@);
                }
                Ok(())
            },
            Some(cert) => {
                let res = self.mqtt_handle_list[idx].mosquitto.tls_set_using_ca_file(cert);
                match res {
                    Ok(()) => {
                        proof {
                            assert(final(self)@ =~= old(self)@.update(
                                idx as int,
                                (HandleModel {
                                    conn: tls_step(old(self)@[idx as int].conn, cert@),
                                    ..old(self)@[idx as int]
                                }),
                            ));
                        }
                        Ok(())
                    },
                    Err(e) => {
                        proof {
                            assert(final(self)@ =~= old(self)@);
                        }
                        Err(Error::MqttHelperSetupTls(e))
                    },
                }
            },
        }
    }

    /// Setup callback: initializes the connection's callback machinery.
    fn setup_callback(&mut self, client_id: &str) -> (r: Result<(), Error>)
        ensures
            !has_handle(old(self)@, client_id@) ==> r == Err::<(), Error>(Error::ClientId)
                && final(self)@ == old(self)@,
            has_handle(old(self)@, client_id@) ==> ({
                let i = first_match(old(self)@, client_id@);
                r == Ok::<(), Error>(()) && updated_conn(
                    old(self)@,
                    final(self)@,
                    i,
                    callback_init_step(old(self)@[i].conn),
                )
            }),
    {
        let idx = match self.find_handler(client_id) {
            Some(i) => i,
            None => {
                return Err(Error::ClientId);
            },
        };
        proof {
            lemma_first_match_is(old(self)@, client_id@, idx as int);
        }
        self.mqtt_handle_list[idx].mosquitto.callback_init();
        proof {
            assert(final(self)@ =~= old(self)@.update(
                idx as int,
                (HandleModel {
                    conn: callback_init_step(old(self)@[idx as int].conn),
                    ..old(self)@[idx as int]
                }),
            ));
        }
        Ok(())
    }

    /// Setup user/pass, callback and TLS, in that fixed order; TLS only when
    /// a CA certificate path is supplied. Stops at the first failure.
    pub fn setup(
        &mut self,
        client_id: &str,
        username: &str,
        password: &str,
        ca_cert: Option<&str>,
    ) -> (r: Result<(), Error>)
        ensures
            !has_handle(old(self)@, client_id@) ==> r == Err::<(), Error>(Error::ClientId)
                && final(self)@ == old(self)@,
            has_handle(old(self)@, client_id@) ==> ({
                let i = first_match(old(self)@, client_id@);
                match userpass_err(username@, password@) {
                    Some(e) => r == Err::<(), Error>(Error::MqttHelperSetUserPass(e)) && final(self)@ == old(self)@,
                    None => ({
                        let c1 = callback_init_step(
                            userpass_step(old(self)@[i].conn, username@, password@),
                        );
                        match ca_cert {
                            None => r == Ok::<(), Error>(()) && updated_conn(
                                old(self)@,
                                final(self)@,
                                i,
                                c1,
                            ),
                            Some(path) => match frame_err(path@) {
                                Some(e) => r == Err::<(), Error>(Error::MqttHelperSetupTls(e))
                                    && updated_conn(old(self)@, final(self)@, i, c1),
                                None => r == Ok::<(), Error>(()) && updated_conn(
                                    old(self)@,
                                    final(self)@,
                                    i,
                                    tls_step(c1, path@),
                                ),
                            },
                        }
                    }),
                }
            }),
    {
        match self.setup_userpass(client_id, username, password) {
            Ok(()) => {},
            Err(e) => {
                return Err(e);
            },
        }
        let ghost s0 = old(self)@;
        let ghost s1 = self@;
        let ghost i = first_match(s0, client_id@);
        proof {
            lemma_first_match_exists(s0, client_id@);
            lemma_updated_conn_keeps_lookup(
                s0,
                s1,
                i,
                userpass_step(s0[i].conn, username@, password@),
                client_id@,
            );
        }
        match self.setup_callback(client_id) {
            Ok(()) => {},
            Err(e) => {
                return Err(e);
            },
        }
        let ghost s2 = self@;
        proof {
            lemma_updated_conn_keeps_lookup(
                s1,
                s2,
                i,
                callback_init_step(s1[i].conn),
                client_id@,
            );
            assert(s2 =~= s0.update(
                i,
                (HandleModel {
                    conn: callback_init_step(userpass_step(s0[i].conn, username@, password@)),
                    ..s0[i]
                }),
            ));
        }
        if ca_cert.is_some() {
            match self.setup_tls(client_id, ca_cert) {
                Ok(()) => {},
                Err(e) => {
                    return Err(e);
                },
            }
            proof {
                let c1 = callback_init_step(userpass_step(s0[i].conn, username@, password@));
                if let Some(path) = ca_cert {
                    if frame_err(path@) is None {
                        assert(final(self)@ =~= s0.update(
                            i,
                            (HandleModel { conn: tls_step(c1, path@), ..s0[i] }),
                        ));
                    }
                }
            }
        }
        Ok(())
    }

    /// Connect to broker.
    pub fn connect(
        &mut self,
        client_id: &str,
        hostname: &str,
        port: i32,
        keep_alive: i32,
    ) -> (r: Result<(), Error>)
        ensures
            !has_handle(old(self)@, client_id@) ==> r == Err::<(), Error>(Error::ClientId)
                && final(self)@ == old(self)@,
            has_handle(old(self)@, client_id@) ==> ({
                let i = first_match(old(self)@, client_id@);
                match frame_err(hostname@) {
                    Some(e) => r == Err::<(), Error>(Error::MqttHelperConnect(e)) && final(self)@
                        == old(self)@,
                    None => r == Ok::<(), Error>(()) && updated_conn(
                        old(self)@,
                        final(self)@,
                        i,
                        connect_step(old(self)@[i].conn, hostname@, port, keep_alive),
                    ),
                }
            }),
    {
        let idx = match self.find_handler(client_id) {
            Some(i) => i,
            None => {
                return Err(Error::ClientId);
            },
        };
        proof {
            lemma_first_match_is(old(self)@, client_id@, idx as int);
        }
        let res = self.mqtt_handle_list[idx].mosquitto.connect(hostname, port, keep_alive);
        match res {
            Ok(()) => {
                proof {
                    assert(final(self)@ =~= old(self)@.update(
                        idx as int,
                        (HandleModel {
                            conn: connect_step(
                                old(self)@[idx as int].conn,
                                hostname@,
                                port,
                                keep_alive,
                            ),
                            ..old(self)@[idx as int]
                        }),
                    ));
                }
                Ok(())
            },
            Err(e) => {
                proof {
                    assert(final(self)@ =~= old(self)@);
                }
                Err(Error::MqttHelperConnect(e))
            },
        }
    }

    /// Disconnect from broker.
    pub fn disconnect(&mut self, client_id: &str) -> (r: Result<(), Error>)
        ensures
            !has_handle(old(self)@, client_id@) ==> r == Err::<(), Error>(Error::ClientId)
                && final(self)@ == old(self)@,
            has_handle(old(self)@, client_id@) ==> ({
                let i = first_match(old(self)@, client_id@);
                match disconnect_err(old(self)@[i].conn) {
                    Some(e) => r == Err::<(), Error>(Error::Wrapped(e)) && final(self)@ == old(
                        self,
                    )@,
                    None => r == Ok::<(), Error>(()) && updated_conn(
                        old(self)@,
                        final(self)@,
                        i,
                        disconnect_step(old(self)@[i].conn),
                    ),
                }
            }),
    {
        let idx = match self.find_handler(client_id) {
            Some(i) => i,
            None => {
                return Err(Error::ClientId);
            },
        };
        proof {
            lemma_first_match_is(old(self)@, client_id@, idx as int);
        }
        let res = self.mqtt_handle_list[idx].mosquitto.disconnect();
        match res {
            Ok(()) => {
                proof {
                    assert(final(self)@ =~= old(self)@.update(
                        idx as int,
                        (HandleModel {
                            conn: disconnect_step(old(self)@[idx as int].conn),
                            ..old(self)@[idx as int]
                        }),
                    ));
                }
                Ok(())
            },
            Err(e) => {
                proof {
                    assert(final(self)@ =~= old(self)@);
                }
                Err(Error::Wrapped(e))
            },
        }
    }

    /// Reconnect to broker.
    pub fn reconnect(&mut self, client_id: &str) -> (r: Result<(), Error>)
        ensures
            !has_handle(old(self)@, client_id@) ==> r == Err::<(), Error>(Error::ClientId)
                && final(self)@ == old(self)@,
            has_handle(old(self)@, client_id@) ==> ({
                let i = first_match(old(self)@, client_id@);
                match reconnect_err(old(self)@[i].conn) {
                    Some(e) => r == Err::<(), Error>(Error::MqttHelperReconnect(e)) && final(self)@ == old(self)@,
                    None => r == Ok::<(), Error>(()) && updated_conn(
                        old(self)@,
                        final(self)@,
                        i,
                        reconnect_step(old(self)@[i].conn),
                    ),
                }
            }),
    {
        let idx = match self.find_handler(client_id) {
            Some(i) => i,
            None => {
                return Err(Error::ClientId);
            },
        };
        proof {
            lemma_first_match_is(old(self)@, client_id@, idx as int);
        }
        let res = self.mqtt_handle_list[idx].mosquitto.reconnect();
        match res {
            Ok(()) => {
                proof {
                    assert(final(self)@ =~= old(self)@.update(
                        idx as int,
                        (HandleModel {
                            conn: reconnect_step(old(self)@[idx as int].conn),
                            ..old(self)@[idx as int]
                        }),
                    ));
                }
                Ok(())
            },
            Err(e) => {
                proof {
                    assert(final(self)@ =~= old(self)@);
                }
                Err(Error::MqttHelperReconnect(e))
            },
        }
    }

    /// Get mqtt socket.
    pub fn socket(&self, client_id: &str) -> (r: Result<i32, Error>)
        ensures
            !has_handle(self@, client_id@) ==> r == Err::<i32, Error>(Error::ClientId),
            has_handle(self@, client_id@) ==> ({
                let i = first_match(self@, client_id@);
                match socket_err(self@[i].conn) {
                    Some(e) => r == Err::<i32, Error>(Error::MqttHelperSocket(e)),
                    None => r == Ok::<i32, Error>(self@[i].conn.socket_fd),
                }
            }),
    {
        let idx = match self.find_handler(client_id) {
            Some(i) => i,
            None => {
                return Err(Error::ClientId);
            },
        };
        proof {
            lemma_first_match_is(self@, client_id@, idx as int);
        }
        match self.mqtt_handle_list[idx].mosquitto.socket() {
            Ok(fd) => Ok(fd),
            Err(e) => Err(Error::MqttHelperSocket(e)),
        }
    }

    /// Run mqtt_loop: one blocking iteration of network processing, bounded
    /// by the timeout and by an upper bound on packets processed per call.
    pub fn run_loop(&mut self, client_id: &str, timeout: i32, maxpackets: i32) -> (r: Result<
        (),
        Error,
    >)
        ensures
            !has_handle(old(self)@, client_id@) ==> r == Err::<(), Error>(Error::ClientId)
                && final(self)@ == old(self)@,
            has_handle(old(self)@, client_id@) ==> ({
                let i = first_match(old(self)@, client_id@);
                match loop_err(old(self)@[i].conn) {
                    Some(e) => r == Err::<(), Error>(Error::MqttHelperRunLoop(e)) && final(self)@
                        == old(self)@,
                    None => r == Ok::<(), Error>(()) && updated_conn(
                        old(self)@,
                        final(self)@,
                        i,
                        misc_step(
                            writes_flushed(
                                old(self)@[i].conn,
                                timeout,
                                vstd::math::min(
                                    old(self)@[i].conn.outbox.len() as int,
                                    packet_cap(maxpackets) as int,
                                ) as nat,
                            ),
                        ),
                    ),
                }
            }),
    {
        let idx = match self.find_handler(client_id) {
            Some(i) => i,
            None => {
                return Err(Error::ClientId);
            },
        };
        proof {
            lemma_first_match_is(old(self)@, client_id@, idx as int);
        }
        let res = self.mqtt_handle_list[idx].mosquitto.mqtt_loop(timeout, maxpackets);
        match res {
            Ok(()) => {
                proof {
                    assert(final(self)@ =~= old(self)@.update(
                        idx as int,
                        (HandleModel {
                            conn: misc_step(
                                writes_flushed(
                                    old(self)@[idx as int].conn,
                                    timeout,
                                    vstd::math::min(
                                        old(self)@[idx as int].conn.outbox.len() as int,
                                        packet_cap(maxpackets) as int,
                                    ) as nat,
                                ),
                            ),
                            ..old(self)@[idx as int]
                        }),
                    ));
                }
                Ok(())
            },
            Err(e) => {
                proof {
                    assert(final(self)@ =~= old(self)@);
                }
                Err(Error::MqttHelperRunLoop(e))
            },
        }
    }

    /// Run mqtt_loop_start: starts the collaborator-managed background
    /// processing loop; this call does not block.
    pub fn run_loop_start(&mut self, client_id: &str) -> (r: Result<(), Error>)
        ensures
            !has_handle(old(self)@, client_id@) ==> r == Err::<(), Error>(Error::ClientId)
                && final(self)@ == old(self)@,
            has_handle(old(self)@, client_id@) ==> ({
                let i = first_match(old(self)@, client_id@);
                match loop_start_err(old(self)@[i].conn) {
                    Some(e) => r == Err::<(), Error>(Error::MqttHelperRunLoopStart(e)) && final(self)@ == old(self)@,
                    None => r == Ok::<(), Error>(()) && updated_conn(
                        old(self)@,
                        final(self)@,
                        i,
                        loop_start_step(old(self)@[i].conn),
                    ),
                }
            }),
    {
        let idx = match self.find_handler(client_id) {
            Some(i) => i,
            None => {
                return Err(Error::ClientId);
            },
        };
        proof {
            lemma_first_match_is(old(self)@, client_id@, idx as int);
        }
        let res = self.mqtt_handle_list[idx].mosquitto.mqtt_loop_start();
        match res {
            Ok(()) => {
                proof {
                    assert(final(self)@ =~= old(self)@.update(
                        idx as int,
                        (HandleModel {
                            conn: loop_start_step(old(self)@[idx as int].conn),
                            ..old(self)@[idx as int]
                        }),
                    ));
                }
                Ok(())
            },
            Err(e) => {
                proof {
                    assert(final(self)@ =~= old(self)@);
                }
                Err(Error::MqttHelperRunLoopStart(e))
            },
        }
    }

    /// A manual, non-blocking alternative loop step for the named handle.
    pub fn alternative_loop(&mut self, client_id: &str) -> (r: Result<(), Error>)
        ensures
            !has_handle(old(self)@, client_id@) ==> r == Err::<(), Error>(Error::ClientId)
                && final(self)@ == old(self)@,
            has_handle(old(self)@, client_id@) ==> ({
                let i = first_match(old(self)@, client_id@);
                let c0 = old(self)@[i].conn;
                if c0.connected {
                    r == Ok::<(), Error>(()) && updated_conn(
                        old(self)@,
                        final(self)@,
                        i,
                        misc_step(writes_flushed(c0, 10, c0.outbox.len())),
                    )
                } else {
                    r == Err::<(), Error>(Error::MqttHelperRunLoop(ConnError::NotConnected))
                        && final(self)@ == old(self)@
                }
            }),
    {
        let idx = match self.find_handler(client_id) {
            Some(i) => i,
            None => {
                return Err(Error::ClientId);
            },
        };
        proof {
            lemma_first_match_is(old(self)@, client_id@, idx as int);
        }
        let mut handle = self.mqtt_handle_list.remove(idx);
        let res = self.alternative_loop_ex(&mut handle);
        self.mqtt_handle_list.insert(idx, handle);
        proof {
            let h0 = old(self)@[idx as int];
            if h0.conn.connected {
                assert(final(self)@ =~= old(self)@.update(
                    idx as int,
                    (HandleModel {
                        conn: misc_step(writes_flushed(h0.conn, 10, h0.conn.outbox.len())),
                        ..h0
                    }),
                ));
            } else {
                assert(final(self)@ =~= old(self)@);
            }
        }
        res
    }

    /// The manual loop body: while the connection reports pending outbound
    /// data, performs one bounded write step with the fixed 10-unit timeout;
    /// once no write is pending, performs exactly one housekeeping step.
    #[verifier::loop_isolation(false)]
    pub fn alternative_loop_ex(&self, handle: &mut MqttHandle) -> (r: Result<(), Error>)
        ensures
            ({
                let h0 = *old(handle);
                if h0@.conn.connected {
                    r == Ok::<(), Error>(()) && final(handle)@ == (HandleModel {
                        conn: misc_step(writes_flushed(h0@.conn, 10, h0@.conn.outbox.len())),
                        ..h0@
                    })
                } else {
                    r == Err::<(), Error>(Error::MqttHelperRunLoop(ConnError::NotConnected))
                        && final(handle)@ == h0@
                }
            }),
    {
        let ghost h0 = handle@;
        let ghost c0 = handle@.conn;
        let mut more = handle.mosquitto.loop_want_write();
        while more
            invariant
                more == (handle@.conn.outbox.len() > 0),
                handle@.client_id == h0.client_id,
                handle@.devices == h0.devices,
                handle@.conn.connected == c0.connected,
                c0.outbox.len() >= handle@.conn.outbox.len(),
                c0.connected ==> handle@.conn == writes_flushed(
                    c0,
                    10,
                    (c0.outbox.len() - handle@.conn.outbox.len()) as nat,
                ),
                !c0.connected ==> handle@.conn == c0,
            decreases handle@.conn.outbox.len(),
        {
            let ghost kpre = (c0.outbox.len() - handle@.conn.outbox.len()) as nat;
            let res = handle.mosquitto.loop_write(10);
            match res {
                Ok(()) => {
                    proof {
                        assert(handle@.conn.outbox =~= c0.outbox.skip(kpre as int + 1));
                        assert(handle@.conn.io_log =~= c0.io_log + Seq::new(
                            kpre + 1,
                            |i: int| crate::connection::IoStep::Write(10),
                        ));
                        assert(handle@.conn =~= writes_flushed(c0, 10, kpre + 1));
                    }
                },
                Err(e) => {
                    proof {
                        assert(!c0.connected);
                        assert(handle@ =~= h0);
                    }
                    return Err(Error::MqttHelperRunLoop(e));
                },
            }
            more = handle.mosquitto.loop_want_write();
        }
        let res = handle.mosquitto.loop_misc();
        match res {
            Ok(()) => {
                proof {
                    assert(c0.connected);
                    assert(handle@ =~= (HandleModel {
                        conn: misc_step(writes_flushed(c0, 10, c0.outbox.len())),
                        ..h0
                    }));
                }
                Ok(())
            },
            Err(e) => {
                proof {
                    assert(!c0.connected);
                    assert(handle@ =~= h0);
                }
                Err(Error::MqttHelperRunLoop(e))
            },
        }
    }

    /// Set connect_callback: registers the connect callback channel; every
    /// later connect event delivers its result code to that channel.
    pub fn set_connect_callback(&mut self, client_id: &str) -> (r: Result<(), Error>)
        ensures
            !has_handle(old(self)@, client_id@) ==> r == Err::<(), Error>(Error::ClientId)
                && final(self)@ == old(self)@,
            has_handle(old(self)@, client_id@) ==> ({
                let i = first_match(old(self)@, client_id@);
                r == Ok::<(), Error>(()) && updated_conn(
                    old(self)@,
                    final(self)@,
                    i,
                    set_connect_cb_step(old(self)@[i].conn),
                )
            }),
    {
        let idx = match self.find_handler(client_id) {
            Some(i) => i,
            None => {
                return Err(Error::ClientId);
            },
        };
        proof {
            lemma_first_match_is(old(self)@, client_id@, idx as int);
        }
        self.mqtt_handle_list[idx].mosquitto.set_connect_callback();
        proof {
            assert(final(self)@ =~= old(self)@.update(
                idx as int,
                (HandleModel {
                    conn: set_connect_cb_step(old(self)@[idx as int].conn),
                    ..old(self)@[idx as int]
                }),
            ));
        }
        Ok(())
    }

    /// Set disconnect_callback: registers the disconnect callback channel.
    pub fn set_disconnect_callback(&mut self, client_id: &str) -> (r: Result<(), Error>)
        ensures
            !has_handle(old(self)@, client_id@) ==> r == Err::<(), Error>(Error::ClientId)
                && final(self)@ == old(self)@,
            has_handle(old(self)@, client_id@) ==> ({
                let i = first_match(old(self)@, client_id@);
                r == Ok::<(), Error>(()) && updated_conn(
                    old(self)@,
                    final(self)@,
                    i,
                    set_disconnect_cb_step(old(self)@[i].conn),
                )
            }),
    {
        let idx = match self.find_handler(client_id) {
            Some(i) => i,
            None => {
                return Err(Error::ClientId);
            },
        };
        proof {
            lemma_first_match_is(old(self)@, client_id@, idx as int);
        }
        self.mqtt_handle_list[idx].mosquitto.set_disconnect_callback();
        proof {
            assert(final(self)@ =~= old(self)@.update(
                idx as int,
                (HandleModel {
                    conn: set_disconnect_cb_step(old(self)@[idx as int].conn),
                    ..old(self)@[idx as int]
                }),
            ));
        }
        Ok(())
    }

    /// Publish to broker: frames the payload as a null-terminated byte
    /// buffer — failing, before any collaborator call, when the payload
    /// holds an embedded null byte — and hands the buffer, trailing null
    /// included, to the connection's publish primitive.
    pub fn publish(&mut self, client_id: &str, topic: &str, payload: &str) -> (r: Result<
        (),
        Error,
    >)
        ensures
            !has_handle(old(self)@, client_id@) ==> r == Err::<(), Error>(Error::ClientId)
                && final(self)@ == old(self)@,
            has_handle(old(self)@, client_id@) ==> ({
                let i = first_match(old(self)@, client_id@);
                if seq_has_nul(payload@) {
                    r == Err::<(), Error>(Error::MqttHelperPayload) && final(self)@ == old(self)@
                } else {
                    match prim_err(old(self)@[i].conn, topic@) {
                        Some(e) => r == Err::<(), Error>(Error::MqttHelperPublish(e)) && final(self)@ == old(self)@,
                        None => r == Ok::<(), Error>(()) && updated_conn(
                            old(self)@,
                            final(self)@,
                            i,
                            publish_step(
                                old(self)@[i].conn,
                                topic@,
                                payload.spec_bytes().push(0u8),
                            ),
                        ),
                    }
                }
            }),
    {
        let idx = match self.find_handler(client_id) {
            Some(i) => i,
            None => {
                return Err(Error::ClientId);
            },
        };
        proof {
            lemma_first_match_is(old(self)@, client_id@, idx as int);
        }
        let framed = match crate::framing::frame_c_payload(payload) {
            Some(v) => v,
            None => {
                proof {
                    assert(final(self)@ =~= old(self)@);
                }
                return Err(Error::MqttHelperPayload);
            },
        };
        let res = self.mqtt_handle_list[idx].mosquitto.publish(topic, framed);
        match res {
            Ok(()) => {
                proof {
                    assert(final(self)@ =~= old(self)@.update(
                        idx as int,
                        (HandleModel {
                            conn: publish_step(
                                old(self)@[idx as int].conn,
                                topic@,
                                payload.spec_bytes().push(0u8),
                            ),
                            ..old(self)@[idx as int]
                        }),
                    ));
                }
                Ok(())
            },
            Err(e) => {
                proof {
                    assert(final(self)@ =~= old(self)@);
                }
                Err(Error::MqttHelperPublish(e))
            },
        }
    }

    /// Subscribe to topic: rejected when any of the handle's device records
    /// already carries the requested topic; otherwise forwarded to the
    /// connection's subscribe primitive.
    pub fn subscribe(&mut self, client_id: &str, topic: &str) -> (r: Result<(), Error>)
        ensures
            !has_handle(old(self)@, client_id@) ==> r == Err::<(), Error>(Error::ClientId)
                && final(self)@ == old(self)@,
            has_handle(old(self)@, client_id@) ==> ({
                let i = first_match(old(self)@, client_id@);
                if topic_known(old(self)@[i].devices, topic@) {
                    r == Err::<(), Error>(Error::TopicNotFound) && final(self)@ == old(self)@
                } else {
                    match prim_err(old(self)@[i].conn, topic@) {
                        Some(e) => r == Err::<(), Error>(Error::MqttHelperSubscribe(e)) && final(self)@ == old(self)@,
                        None => r == Ok::<(), Error>(()) && updated_conn(
                            old(self)@,
                            final(self)@,
                            i,
                            subscribe_step(old(self)@[i].conn, topic@),
                        ),
                    }
                }
            }),
    {
        let idx = match self.find_handler(client_id) {
            Some(i) => i,
            None => {
                return Err(Error::ClientId);
            },
        };
        proof {
            lemma_first_match_is(old(self)@, client_id@, idx as int);
        }
        if self.mqtt_handle_list[idx].devices.any_topic_found(topic) {
            return Err(Error::TopicNotFound);
        }
        let res = self.mqtt_handle_list[idx].mosquitto.subscribe(topic);
        match res {
            Ok(()) => {
                proof {
                    assert(final(self)@ =~= old(self)@.update(
                        idx as int,
                        (HandleModel {
                            conn: subscribe_step(old(self)@[idx as int].conn, topic@),
                            ..old(self)@[idx as int]
                        }),
                    ));
                }
                Ok(())
            },
            Err(e) => {
                proof {
                    assert(final(self)@ =~= old(self)@);
                }
                Err(Error::MqttHelperSubscribe(e))
            },
        }
    }

    /// Unsubscribe topic: rejected unless every device record of the handle
    /// carries the requested topic; otherwise forwarded to the connection's
    /// unsubscribe primitive.
    pub fn unsubscribe(&mut self, client_id: &str, topic: &str) -> (r: Result<(), Error>)
        ensures
            !has_handle(old(self)@, client_id@) ==> r == Err::<(), Error>(Error::ClientId)
                && final(self)@ == old(self)@,
            has_handle(old(self)@, client_id@) ==> ({
                let i = first_match(old(self)@, client_id@);
                if !all_topics_known(old(self)@[i].devices, topic@) {
                    r == Err::<(), Error>(Error::TopicNotFound) && final(self)@ == old(self)@
                } else {
                    match prim_err(old(self)@[i].conn, topic@) {
                        Some(e) => r == Err::<(), Error>(Error::MqttHelperUnsubscribe(e))
                            && final(self)@ == old(self)@,
                        None => r == Ok::<(), Error>(()) && updated_conn(
                            old(self)@,
                            final(self)@,
                            i,
                            unsubscribe_step(old(self)@[i].conn, topic@),
                        ),
                    }
                }
            }),
    {
        let idx = match self.find_handler(client_id) {
            Some(i) => i,
            None => {
                return Err(Error::ClientId);
            },
        };
        proof {
            lemma_first_match_is(old(self)@, client_id@, idx as int);
        }
        if !self.mqtt_handle_list[idx].devices.all_topics_found(topic) {
            return Err(Error::TopicNotFound);
        }
        let res = self.mqtt_handle_list[idx].mosquitto.unsubscribe(topic);
        match res {
            Ok(()) => {
                proof {
                    assert(final(self)@ =~= old(self)@.update(
                        idx as int,
                        (HandleModel {
                            conn: unsubscribe_step(old(self)@[idx as int].conn, topic@),
                            ..old(self)@[idx as int]
                        }),
                    ));
                }
                Ok(())
            },
            Err(e) => {
                proof {
                    assert(final(self)@ =~= old(self)@);
                }
                Err(Error::MqttHelperUnsubscribe(e))
            },
        }
    }
}

/// After construction with identifier `id`, looking that identifier up
/// succeeds at position 0, and the handle's device map holds exactly one
/// entry, keyed by the identifier, with no topic assigned and the identifier
/// as local id.
pub proof fn lemma_new_registry_lookup(id: Seq<char>)
    ensures
        ({
            let hs = seq![new_handle_model(id)];
            &&& has_handle(hs, id)
            &&& first_match(hs, id) == 0
            &&& hs[0].devices.len() == 1
            &&& hs[0].devices[0].0 == id
            &&& hs[0].devices[0].1.topic is None
            &&& hs[0].devices[0].1.local_id == Some(id)
        }),
{
    let hs = seq![new_handle_model(id)];
    assert(is_first_match(hs, id, 0));
    lemma_first_match_is(hs, id, 0);
}

/// A successful subscribe leaves the handle's device map untouched, so an
/// immediate second subscribe of the same topic passes the same validation
/// and is forwarded to the connection again.
pub proof fn lemma_subscribe_repeatable(h: HandleModel, t: Seq<char>)
    requires
        !topic_known(h.devices, t),
        prim_err(h.conn, t) is None,
    ensures
        ({
            let h2 = HandleModel { conn: subscribe_step(h.conn, t), ..h };
            &&& !topic_known(h2.devices, t)
            &&& prim_err(h2.conn, t) is None
        }),
{
}

} // verus!
