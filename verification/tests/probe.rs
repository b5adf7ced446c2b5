use connwatch::dispatch::{Config, Dispatcher, Pending, Wait};
use connwatch::state::{ConnectivityState, Target};

fn probe_config() -> Config {
    Config {
        offline_delay_ms: 2000,
        captive_portal_delay_ms: 2000,
        probe_interval_ms: 3000,
        probe_online: true,
    }
}

#[test]
fn probe_fail_fail_success_activates_captive_then_online() {
    let (mut d, _dir0) = Dispatcher::new(ConnectivityState::Offline, probe_config());
    let dir1 = d.on_raw_string("routable");
    assert_eq!(dir1.activate, None);
    assert_eq!(dir1.wait, Wait::Probe { ms: 0 });
    let dir2 = d.on_probe_result(false);
    assert_eq!(dir2.activate, Some(Target::CaptivePortal));
    assert_eq!(dir2.wait, Wait::Probe { ms: 3000 });
    let dir3 = d.on_probe_result(false);
    assert_eq!(dir3.activate, None);
    assert_eq!(dir3.wait, Wait::Probe { ms: 3000 });
    let dir4 = d.on_probe_result(true);
    assert_eq!(dir4.activate, Some(Target::Online));
    assert_eq!(d.pending, Pending::Idle);
    let dir5 = d.on_probe_result(true);
    assert_eq!(dir5.activate, None);
}

#[test]
fn immediate_probe_success_activates_online_only() {
    let (mut d, _dir0) = Dispatcher::new(ConnectivityState::Offline, probe_config());
    let dir1 = d.on_state(ConnectivityState::Online);
    assert_eq!(dir1.activate, None);
    let dir2 = d.on_probe_result(true);
    assert_eq!(dir2.activate, Some(Target::Online));
    assert_eq!(d.pending, Pending::Idle);
}

#[test]
fn routable_re_delivery_keeps_probe_loop() {
    let (mut d, _dir0) = Dispatcher::new(ConnectivityState::Offline, probe_config());
    let _ = d.on_raw_string("routable");
    let _ = d.on_probe_result(false);
    let before = d;
    let dir = d.on_raw_string("routable");
    assert_eq!(d, before);
    assert_eq!(dir.wait, Wait::Keep);
    let dir2 = d.on_probe_result(false);
    assert_eq!(dir2.activate, None);
}

#[test]
fn probe_loop_preempted_by_offline_never_activates_online() {
    let (mut d, _dir0) = Dispatcher::new(ConnectivityState::Offline, probe_config());
    let _ = d.on_raw_string("routable");
    let dir1 = d.on_raw_string("degraded");
    assert_eq!(dir1.activate, None);
    assert_eq!(dir1.wait, Wait::Delay { ms: 2000 });
    let dir2 = d.on_probe_result(true);
    assert_eq!(dir2.activate, None);
    let dir3 = d.on_delay_elapsed();
    assert_eq!(dir3.activate, Some(Target::Offline));
}

#[test]
fn non_routable_string_starts_offline_delay() {
    let (mut d, _dir0) = Dispatcher::new(ConnectivityState::Online, probe_config());
    let dir = d.on_raw_string("degraded");
    assert_eq!(dir.activate, None);
    assert_eq!(dir.wait, Wait::Delay { ms: 2000 });
    let dir2 = d.on_delay_elapsed();
    assert_eq!(dir2.activate, Some(Target::Offline));
}
