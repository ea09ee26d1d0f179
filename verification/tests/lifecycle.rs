use rqbit_desktop::commands::get_default_configuration;
use rqbit_desktop::config::Configuration;
use rqbit_desktop::errors::CommandError;
use rqbit_desktop::lifecycle::LifecycleManager;
use rqbit_desktop::lifecycle::SessionId;

fn config_with_port(min_port: u16) -> Configuration {
    let mut c = get_default_configuration();
    c.tcp_listen.min_port = min_port;
    c
}

#[test]
fn starts_unconfigured() {
    let m = LifecycleManager::new();
    assert!(m.current_config().is_none());
    assert!(matches!(m.api_handle(), Err(CommandError::NotConfigured)));
}

#[test]
fn unconfigured_commands_return_not_configured() {
    let m = LifecycleManager::new();
    assert!(matches!(m.list_jobs(), Err(CommandError::NotConfigured)));
    assert!(matches!(m.job_details(0), Err(CommandError::NotConfigured)));
    assert!(matches!(m.job_stats(1), Err(CommandError::NotConfigured)));
    assert!(matches!(m.job_pause(2), Err(CommandError::NotConfigured)));
    assert!(matches!(m.job_resume(3), Err(CommandError::NotConfigured)));
    assert!(matches!(m.job_delete(4), Err(CommandError::NotConfigured)));
    assert!(matches!(m.job_forget(5), Err(CommandError::NotConfigured)));
    assert!(matches!(
        m.add_job_from_url("magnet:?xt=urn:btih:abc".to_owned()),
        Err(CommandError::NotConfigured)
    ));
    // valid base64, so the failure is the missing session, not the payload
    assert!(matches!(
        m.add_job_from_bytes("aGVsbG8="),
        Err(CommandError::NotConfigured)
    ));
    // and the failed commands had no side effect on the slot
    assert!(m.current_config().is_none());
}

#[test]
fn configure_round_trips() {
    let mut m = LifecycleManager::new();
    let cfg = config_with_port(5000);
    let prev = m.detach();
    assert!(prev.is_none());
    m.install(cfg.duplicate(), SessionId { id: 1 });
    assert_eq!(m.current_config(), Some(cfg));
    assert!(matches!(m.api_handle(), Ok(SessionId { id: 1 })));
}

#[test]
fn failed_configure_leaves_unconfigured() {
    let mut m = LifecycleManager::new();
    let cfg = config_with_port(5001);
    m.detach();
    m.install(cfg.duplicate(), SessionId { id: 1 });

    // a reconfiguration that fails during construction: it detaches the old
    // record (whose session the host then stops) and never installs
    let prev = m.detach();
    let prev = prev.expect("the previous record is handed out to be stopped");
    assert_eq!(prev.config, cfg);
    assert_eq!(prev.session, SessionId { id: 1 });
    assert!(m.current_config().is_none());
    assert!(matches!(m.list_jobs(), Err(CommandError::NotConfigured)));
}

#[test]
fn back_to_back_configures_end_in_one_whole_state() {
    let mut m = LifecycleManager::new();
    let cfg_a = config_with_port(6000);
    let cfg_b = config_with_port(7000);

    // first configure: detach (empty), install A
    assert!(m.detach().is_none());
    m.install(cfg_a.duplicate(), SessionId { id: 1 });

    // second configure begins: its detach hands record A out exactly once
    let prev = m.detach().expect("record A is yielded to be stopped");
    assert_eq!(prev.config, cfg_a);
    assert_eq!(prev.session, SessionId { id: 1 });
    // readers in the shutdown window observe "not configured"
    assert!(m.current_config().is_none());
    // a third configure's detach finds the slot already empty and skips the wait
    assert!(m.detach().is_none());

    m.install(cfg_b.duplicate(), SessionId { id: 2 });
    // the final state is whole record B, never a hybrid
    assert_eq!(m.current_config(), Some(cfg_b));
    assert!(matches!(m.api_handle(), Ok(SessionId { id: 2 })));
}

#[test]
fn full_scenario_across_reconfiguration() {
    let mut m = LifecycleManager::new();
    assert!(m.current_config().is_none());

    let cfg1 = config_with_port(8000);
    assert!(m.detach().is_none());
    m.install(cfg1.duplicate(), SessionId { id: 10 });

    let listing = m.list_jobs().expect("configured");
    assert_eq!(listing, SessionId { id: 10 });

    let add = m
        .add_job_from_url("magnet:?xt=urn:btih:0123456789abcdef".to_owned())
        .expect("configured");
    assert_eq!(add.session, SessionId { id: 10 });
    assert_eq!(add.url, "magnet:?xt=urn:btih:0123456789abcdef");

    let details = m.job_details(0).expect("configured");
    assert_eq!(details.session, SessionId { id: 10 });
    assert_eq!(details.job, 0);

    // reconfigure: the old record leaves the slot exactly once
    let cfg2 = config_with_port(9000);
    let old = m.detach().expect("old record yielded once");
    assert_eq!(old.session, SessionId { id: 10 });
    assert!(m.detach().is_none());
    m.install(cfg2.duplicate(), SessionId { id: 11 });

    // listing now reflects the new session, not the stopped one
    let listing = m.list_jobs().expect("configured");
    assert_eq!(listing, SessionId { id: 11 });
    assert_eq!(m.current_config(), Some(cfg2));
}
