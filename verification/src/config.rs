//! The configuration value bundle and its translation into engine session
//! settings.
//!
//! A `Configuration` is self-contained: it holds, as plain values, everything
//! needed to deterministically reconstruct an engine session. Durations are
//! carried in milliseconds; socket addresses and paths as text.

use vstd::prelude::*;

verus! {

/// Distributed-hash-table options.
#[derive(Debug, PartialEq, Eq)]
pub struct DhtConfig {
    pub disable: bool,
    pub disable_persistence: bool,
    pub persistence_filename: String,
}

/// Session persistence options.
#[derive(Debug, PartialEq, Eq)]
pub struct PersistenceConfig {
    pub disable: bool,
    pub filename: String,
}

/// Peer connection timeouts, in milliseconds.
#[derive(Debug, PartialEq, Eq)]
pub struct PeerConnectionConfig {
    pub connect_timeout_ms: u64,
    pub read_write_timeout_ms: u64,
}

/// Inbound listener options; when disabled the port range is ignored.
#[derive(Debug, PartialEq, Eq)]
pub struct TcpListenConfig {
    pub disable: bool,
    pub min_port: u16,
    pub max_port: u16,
}

/// Outbound NAT traversal toggle.
#[derive(Debug, PartialEq, Eq)]
pub struct UpnpConfig {
    pub disable: bool,
}

/// Control-plane server options.
#[derive(Debug, PartialEq, Eq)]
pub struct HttpApiConfig {
    pub disable: bool,
    pub listen_addr: String,
    pub read_only: bool,
}

/// The complete, immutable-once-applied configuration of one session.
#[derive(Debug, PartialEq, Eq)]
pub struct Configuration {
    pub default_download_location: String,
    pub dht: DhtConfig,
    pub persistence: PersistenceConfig,
    pub peer_opts: PeerConnectionConfig,
    pub tcp_listen: TcpListenConfig,
    pub upnp: UpnpConfig,
    pub http_api: HttpApiConfig,
}

impl Configuration {
    /// An exact copy; callers get a value equal to the stored one.
    pub fn duplicate(&self) -> (r: Self)
        ensures
            r == *self,
    {
        Configuration {
            default_download_location: self.default_download_location.clone(),
            dht: DhtConfig {
                disable: self.dht.disable,
                disable_persistence: self.dht.disable_persistence,
                persistence_filename: self.dht.persistence_filename.clone(),
            },
            persistence: PersistenceConfig {
                disable: self.persistence.disable,
                filename: self.persistence.filename.clone(),
            },
            peer_opts: PeerConnectionConfig {
                connect_timeout_ms: self.peer_opts.connect_timeout_ms,
                read_write_timeout_ms: self.peer_opts.read_write_timeout_ms,
            },
            tcp_listen: TcpListenConfig {
                disable: self.tcp_listen.disable,
                min_port: self.tcp_listen.min_port,
                max_port: self.tcp_listen.max_port,
            },
            upnp: UpnpConfig { disable: self.upnp.disable },
            http_api: HttpApiConfig {
                disable: self.http_api.disable,
                listen_addr: self.http_api.listen_addr.clone(),
                read_only: self.http_api.read_only,
            },
        }
    }
}

/// What the fixed default configuration holds: DHT, persistence, listening,
/// NAT traversal and the control-plane server all enabled, a conventional
/// port range, and paths left empty for the host to fill in.
pub open spec fn is_default_configuration(c: Configuration) -> bool {
    &&& c.default_download_location@ == Seq::<char>::empty()
    &&& c.dht.disable == false
    &&& c.dht.disable_persistence == false
    &&& c.dht.persistence_filename@ == Seq::<char>::empty()
    &&& c.persistence.disable == false
    &&& c.persistence.filename@ == Seq::<char>::empty()
    &&& c.peer_opts.connect_timeout_ms == 2000u64
    &&& c.peer_opts.read_write_timeout_ms == 10000u64
    &&& c.tcp_listen.disable == false
    &&& c.tcp_listen.min_port == 4240u16
    &&& c.tcp_listen.max_port == 4260u16
    &&& c.upnp.disable == false
    &&& c.http_api.disable == false
    &&& c.http_api.listen_addr@ == "127.0.0.1:3030"@
    &&& c.http_api.read_only == false
}

impl Default for Configuration {
    /// The configuration in effect before any was ever applied.
    fn default() -> (r: Self)
        ensures
            is_default_configuration(r),
    {
        Configuration {
            default_download_location: String::new(),
            dht: DhtConfig {
                disable: false,
                disable_persistence: false,
                persistence_filename: String::new(),
            },
            persistence: PersistenceConfig { disable: false, filename: String::new() },
            peer_opts: PeerConnectionConfig {
                connect_timeout_ms: 2000,
                read_write_timeout_ms: 10000,
            },
            tcp_listen: TcpListenConfig { disable: false, min_port: 4240, max_port: 4260 },
            upnp: UpnpConfig { disable: false },
            http_api: HttpApiConfig {
                disable: false,
                listen_addr: "127.0.0.1:3030".to_owned(),
                read_only: false,
            },
        }
    }
}

/// Engine session settings, as plain values: the whole of what is handed to
/// the engine when a session is constructed, fixed by the configuration
/// alone.
#[derive(Debug, PartialEq, Eq)]
pub struct SessionSettings {
    pub default_download_location: String,
    pub disable_dht: bool,
    pub disable_dht_persistence: bool,
    pub dht_config_filename: String,
    pub persistence: bool,
    pub persistence_filename: String,
    pub peer_connect_timeout_ms: u64,
    pub peer_read_write_timeout_ms: u64,
    pub listen_port_range: Option<(u16, u16)>,
    pub enable_upnp_port_forwarding: bool,
}

/// The settings a configuration translates to: the download location is
/// carried verbatim, toggles are carried over with the engine's polarity
/// (persistence and NAT traversal flip from "disable" to "enable"), and the
/// listen range exists exactly when listening is on.
pub open spec fn session_settings_of(c: Configuration) -> SessionSettings {
    SessionSettings {
        default_download_location: c.default_download_location,
        disable_dht: c.dht.disable,
        disable_dht_persistence: c.dht.disable_persistence,
        dht_config_filename: c.dht.persistence_filename,
        persistence: !c.persistence.disable,
        persistence_filename: c.persistence.filename,
        peer_connect_timeout_ms: c.peer_opts.connect_timeout_ms,
        peer_read_write_timeout_ms: c.peer_opts.read_write_timeout_ms,
        listen_port_range: if !c.tcp_listen.disable {
            Some((c.tcp_listen.min_port, c.tcp_listen.max_port))
        } else {
            None
        },
        enable_upnp_port_forwarding: !c.upnp.disable,
    }
}

/// Translate a configuration into the session settings the engine is started
/// with.
pub fn build_session_settings(c: &Configuration) -> (r: SessionSettings)
    ensures
        r == session_settings_of(*c),
{
    SessionSettings {
        default_download_location: c.default_download_location.clone(),
        disable_dht: c.dht.disable,
        disable_dht_persistence: c.dht.disable_persistence,
        dht_config_filename: c.dht.persistence_filename.clone(),
        persistence: !c.persistence.disable,
        persistence_filename: c.persistence.filename.clone(),
        peer_connect_timeout_ms: c.peer_opts.connect_timeout_ms,
        peer_read_write_timeout_ms: c.peer_opts.read_write_timeout_ms,
        listen_port_range: if !c.tcp_listen.disable {
            Some((c.tcp_listen.min_port, c.tcp_listen.max_port))
        } else {
            None
        },
        enable_upnp_port_forwarding: !c.upnp.disable,
    }
}

} // verus!
