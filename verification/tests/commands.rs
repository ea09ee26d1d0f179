use rqbit_desktop::commands::get_default_configuration;
use rqbit_desktop::commands::get_version;
use rqbit_desktop::errors::CommandError;
use rqbit_desktop::lifecycle::LifecycleManager;
use rqbit_desktop::lifecycle::SessionId;

#[test]
fn add_job_from_bytes_rejects_invalid_base64() {
    let mut m = LifecycleManager::new();
    m.detach();
    m.install(get_default_configuration(), SessionId { id: 1 });
    // malformed payload: a structured InvalidEncoding, not a panic and not an
    // engine-level error
    assert!(matches!(
        m.add_job_from_bytes("this is :: not base64 !!"),
        Err(CommandError::InvalidEncoding)
    ));
}

#[test]
fn add_job_from_bytes_unconfigured_wins_over_bad_payload() {
    // the session is resolved before the payload is even looked at
    let m = LifecycleManager::new();
    assert!(matches!(
        m.add_job_from_bytes("%%%"),
        Err(CommandError::NotConfigured)
    ));
}

#[test]
fn add_job_from_bytes_decodes_payload() {
    let mut m = LifecycleManager::new();
    m.detach();
    m.install(get_default_configuration(), SessionId { id: 3 });
    let add = m.add_job_from_bytes("aGVsbG8=").expect("valid base64");
    assert_eq!(add.session, SessionId { id: 3 });
    assert_eq!(add.payload, b"hello".to_vec());
}

#[test]
fn add_job_from_bytes_decodes_empty_payload() {
    let mut m = LifecycleManager::new();
    m.detach();
    m.install(get_default_configuration(), SessionId { id: 4 });
    let add = m.add_job_from_bytes("").expect("empty text is valid base64");
    assert!(add.payload.is_empty());
}

#[test]
fn version_string() {
    assert_eq!(get_version(), "0.1.0");
}

#[test]
fn default_configuration_values() {
    let c = get_default_configuration();
    assert_eq!(c.default_download_location, "");
    assert!(!c.dht.disable);
    assert!(!c.dht.disable_persistence);
    assert_eq!(c.dht.persistence_filename, "");
    assert!(!c.persistence.disable);
    assert_eq!(c.persistence.filename, "");
    assert_eq!(c.peer_opts.connect_timeout_ms, 2000);
    assert_eq!(c.peer_opts.read_write_timeout_ms, 10000);
    assert!(!c.tcp_listen.disable);
    assert_eq!(c.tcp_listen.min_port, 4240);
    assert_eq!(c.tcp_listen.max_port, 4260);
    assert!(!c.upnp.disable);
    assert!(!c.http_api.disable);
    assert_eq!(c.http_api.listen_addr, "127.0.0.1:3030");
    assert!(!c.http_api.read_only);
}

#[test]
fn error_messages() {
    assert_eq!(CommandError::NotConfigured.message(), "not configured");
    assert_eq!(
        CommandError::ConfigurationFailed { message: "engine refused".to_owned() }.message(),
        "engine refused"
    );
    assert_eq!(CommandError::InvalidEncoding.message(), "invalid base64 payload");
    assert_eq!(CommandError::NotFound.message(), "no such job");
}
