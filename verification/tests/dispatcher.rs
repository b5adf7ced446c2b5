use connwatch::dispatch::{Config, Directive, Dispatcher, Pending, Wait};
use connwatch::state::{
    ConnectivityState, Target, RAW_CONNECTED_GLOBAL, RAW_CONNECTED_SITE, RAW_CONNECTING,
    RAW_DISCONNECTED,
};

fn test_config(probe_online: bool) -> Config {
    Config {
        offline_delay_ms: 2000,
        captive_portal_delay_ms: 2000,
        probe_interval_ms: 3000,
        probe_online,
    }
}

#[test]
fn disconnect_then_global_cancels_offline() {
    let (mut d, dir0) = Dispatcher::new(ConnectivityState::Online, test_config(false));
    assert_eq!(dir0.activate, Some(Target::Online));
    let dir1 = d.on_raw_numeric(RAW_DISCONNECTED);
    assert_eq!(dir1.activate, None);
    assert_eq!(dir1.wait, Wait::Delay { ms: 2000 });
    let dir2 = d.on_raw_numeric(RAW_CONNECTED_GLOBAL);
    assert_eq!(dir2.activate, Some(Target::Online));
    assert_eq!(d.pending, Pending::Idle);
}

#[test]
fn connected_site_held_full_delay_activates_captive_portal_once() {
    let (mut d, _dir0) = Dispatcher::new(ConnectivityState::Online, test_config(false));
    let dir1 = d.on_raw_numeric(RAW_CONNECTED_SITE);
    assert_eq!(dir1.activate, None);
    assert_eq!(dir1.wait, Wait::Delay { ms: 2000 });
    let dir2 = d.on_delay_elapsed();
    assert_eq!(dir2.activate, Some(Target::CaptivePortal));
    let dir3 = d.on_delay_elapsed();
    assert_eq!(dir3.activate, None);
    assert_eq!(d.current, ConnectivityState::CaptivePortal);
}

#[test]
fn startup_without_events_activates_nothing() {
    let (d, dir0) = Dispatcher::new(ConnectivityState::Offline, test_config(false));
    assert_eq!(dir0.activate, None);
    assert_eq!(
        d.pending,
        Pending::Delay {
            target: Target::Offline
        }
    );
}

#[test]
fn captive_portal_superseded_before_delay_never_activates_captive() {
    let (mut d, _dir0) = Dispatcher::new(ConnectivityState::Online, test_config(false));
    let dir1 = d.on_state(ConnectivityState::CaptivePortal);
    assert_eq!(dir1.activate, None);
    let dir2 = d.on_state(ConnectivityState::Online);
    assert_eq!(dir2.activate, Some(Target::Online));
    let dir3 = d.on_delay_elapsed();
    assert_eq!(dir3.activate, None);
}

#[test]
fn duplicate_state_does_not_restart_action() {
    let (mut d, _dir0) = Dispatcher::new(ConnectivityState::Online, test_config(false));
    let dir1 = d.on_state(ConnectivityState::Offline);
    assert_eq!(dir1.activate, None);
    let before = d;
    let dir2 = d.on_state(ConnectivityState::Offline);
    assert_eq!(d, before);
    assert_eq!(
        dir2,
        Directive {
            activate: None,
            wait: Wait::Keep
        }
    );
    let dir3 = d.on_delay_elapsed();
    assert_eq!(dir3.activate, Some(Target::Offline));
    let dir4 = d.on_state(ConnectivityState::Offline);
    assert_eq!(dir4.activate, None);
}

#[test]
fn ignored_raw_level_changes_nothing() {
    let (mut d, _dir0) = Dispatcher::new(ConnectivityState::Online, test_config(false));
    let _ = d.on_raw_numeric(RAW_DISCONNECTED);
    let before = d;
    let dir = d.on_raw_numeric(RAW_CONNECTING);
    assert_eq!(d, before);
    assert_eq!(
        dir,
        Directive {
            activate: None,
            wait: Wait::Keep
        }
    );
}

#[test]
fn distinct_states_each_start_an_action() {
    let (mut d, _dir0) = Dispatcher::new(ConnectivityState::Online, test_config(false));
    let dir1 = d.on_state(ConnectivityState::Offline);
    assert_eq!(dir1.wait, Wait::Delay { ms: 2000 });
    let dir2 = d.on_state(ConnectivityState::CaptivePortal);
    assert_eq!(dir2.wait, Wait::Delay { ms: 2000 });
    let dir3 = d.on_state(ConnectivityState::Online);
    assert_eq!(dir3.activate, Some(Target::Online));
    assert_eq!(dir1.activate, None);
    assert_eq!(dir2.activate, None);
    assert_eq!(d.current, ConnectivityState::Online);
}
