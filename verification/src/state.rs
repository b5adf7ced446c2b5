//! Logical connectivity states, operational targets, and the normalization of
//! raw connectivity reports into logical states.

use vstd::prelude::*;
use vstd::string::StrSliceExecFns;

verus! {

/// The logical classification of the host's network reachability.
#[derive(Clone, Copy, Debug, PartialEq, Eq, Structural)]
pub enum ConnectivityState {
    Offline,
    Online,
    CaptivePortal,
}

/// A named, exclusive operational mode of the service manager, gating
/// dependent units.
#[derive(Clone, Copy, Debug, PartialEq, Eq, Structural)]
pub enum Target {
    Online,
    Offline,
    CaptivePortal,
}

/// The unit name under which a target is activated in the service manager.
pub open spec fn spec_unit_name(t: Target) -> Seq<char> {
    match t {
        Target::Online => "online.target"@,
        Target::Offline => "offline.target"@,
        Target::CaptivePortal => "captive-portal.target"@,
    }
}

impl Target {
    /// The unit name handed to the service manager's activation call.
    pub fn unit_name(self) -> (r: &'static str)
        ensures
            r@ == spec_unit_name(self),
    {
        match self {
            Target::Online => "online.target",
            Target::Offline => "offline.target",
            Target::CaptivePortal => "captive-portal.target",
        }
    }
}

/// The target that realises a connectivity state.
pub open spec fn target_for(s: ConnectivityState) -> Target {
    match s {
        ConnectivityState::Offline => Target::Offline,
        ConnectivityState::Online => Target::Online,
        ConnectivityState::CaptivePortal => Target::CaptivePortal,
    }
}

// Raw numeric connectivity levels as reported by a network-management service.
pub const RAW_UNKNOWN: u32 = 0;
pub const RAW_ASLEEP: u32 = 10;
pub const RAW_DISCONNECTED: u32 = 20;
pub const RAW_DISCONNECTING: u32 = 30;
pub const RAW_CONNECTING: u32 = 40;
pub const RAW_CONNECTED_LOCAL: u32 = 50;
pub const RAW_CONNECTED_SITE: u32 = 60;
pub const RAW_CONNECTED_GLOBAL: u32 = 70;

/// Numeric-source normalization: global reachability is online, site-local
/// connectivity is read as a captive portal, a full disconnect is offline, and
/// every other level (unknown, asleep, transitioning, local-only) is no
/// transition at all.
pub open spec fn spec_normalize_numeric(raw: u32) -> Option<ConnectivityState> {
    if raw == RAW_CONNECTED_GLOBAL {
        Some(ConnectivityState::Online)
    } else if raw == RAW_CONNECTED_SITE {
        Some(ConnectivityState::CaptivePortal)
    } else if raw == RAW_DISCONNECTED {
        Some(ConnectivityState::Offline)
    } else {
        None
    }
}

/// Maps a raw numeric connectivity level to a logical state; `None` means the
/// report is ignored and the dispatcher must stay exactly as it is.
pub fn normalize_numeric(raw: u32) -> (r: Option<ConnectivityState>)
    ensures
        r == spec_normalize_numeric(raw),
{
    if raw == RAW_CONNECTED_GLOBAL {
        Some(ConnectivityState::Online)
    } else if raw == RAW_CONNECTED_SITE {
        Some(ConnectivityState::CaptivePortal)
    } else if raw == RAW_DISCONNECTED {
        Some(ConnectivityState::Offline)
    } else {
        None
    }
}

/// String-source normalization: a "routable" operational state is a candidate
/// for online (a link can be nominally routable yet sit behind a captive
/// portal, so the online action still verifies reachability), and anything
/// else is offline.
pub open spec fn spec_normalize_string(s: Seq<char>) -> ConnectivityState {
    if s == "routable"@ {
        ConnectivityState::Online
    } else {
        ConnectivityState::Offline
    }
}

/// Maps a raw operational-state string to a logical state.
pub fn normalize_string(s: &str) -> (r: ConnectivityState)
    ensures
        r == spec_normalize_string(s@),
{
    if str_is_routable(s) {
        ConnectivityState::Online
    } else {
        ConnectivityState::Offline
    }
}

/// Character-by-character comparison of a raw state string against "routable".
fn str_is_routable(s: &str) -> (r: bool)
    ensures
        r == (s@ == "routable"@),
{
    let pat = "routable";
    proof {
        reveal_strlit("routable");
    }
    let n = s.unicode_len();
    if n != 8 {
        return false;
    }
    let mut i: usize = 0;
    while i < 8
        invariant
            s@.len() == 8,
            pat@ == "routable"@,
            pat@.len() == 8,
            i <= 8,
            forall|j: int| 0 <= j < i ==> s@[j] == pat@[j],
        decreases 8 - i,
    {
        if s.get_char(i) != pat.get_char(i) {
            return false;
        }
        i += 1;
    }
    proof {
        assert(s@ =~= pat@);
    }
    true
}

} // verus!
