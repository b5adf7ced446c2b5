use connwatch::state::{
    normalize_numeric, normalize_string, ConnectivityState, Target, RAW_ASLEEP,
    RAW_CONNECTED_GLOBAL, RAW_CONNECTED_LOCAL, RAW_CONNECTED_SITE, RAW_CONNECTING,
    RAW_DISCONNECTED, RAW_DISCONNECTING, RAW_UNKNOWN,
};

#[test]
fn numeric_connected_global_is_online() {
    assert_eq!(
        normalize_numeric(RAW_CONNECTED_GLOBAL),
        Some(ConnectivityState::Online)
    );
}

#[test]
fn numeric_connected_site_is_captive_portal() {
    assert_eq!(
        normalize_numeric(RAW_CONNECTED_SITE),
        Some(ConnectivityState::CaptivePortal)
    );
}

#[test]
fn numeric_disconnected_is_offline() {
    assert_eq!(
        normalize_numeric(RAW_DISCONNECTED),
        Some(ConnectivityState::Offline)
    );
}

#[test]
fn numeric_other_levels_are_no_transition() {
    for raw in [
        RAW_UNKNOWN,
        RAW_ASLEEP,
        RAW_DISCONNECTING,
        RAW_CONNECTING,
        RAW_CONNECTED_LOCAL,
        5,
        65,
        71,
        u32::MAX,
    ] {
        assert_eq!(normalize_numeric(raw), None);
    }
}

#[test]
fn string_routable_is_online_candidate() {
    assert_eq!(normalize_string("routable"), ConnectivityState::Online);
}

#[test]
fn string_anything_else_is_offline() {
    for raw in ["", "degraded", "carrier", "no-carrier", "routabl", "routable2", "ROUTABLE"] {
        assert_eq!(normalize_string(raw), ConnectivityState::Offline);
    }
}

#[test]
fn unit_names_match_their_targets() {
    assert_eq!(Target::Online.unit_name(), "online.target");
    assert_eq!(Target::Offline.unit_name(), "offline.target");
    assert_eq!(Target::CaptivePortal.unit_name(), "captive-portal.target");
}
