//! The debounced, preemptible transition dispatcher.
//!
//! The dispatcher owns the single adopted connectivity state and, for each
//! newly adopted state, exactly one in-flight action: a debounce delay that
//! ends in one target activation, or a reachability-probe loop. A different
//! newly observed state preempts the in-flight action before it can activate;
//! re-delivery of the adopted state leaves it untouched. The dispatcher is a
//! pure machine: each entry point returns a [`Directive`] telling the
//! surrounding event loop what to activate and what to wait for next.

use crate::state::{
    spec_normalize_numeric, spec_normalize_string, normalize_numeric, normalize_string,
    ConnectivityState, Target,
};
use vstd::prelude::*;

verus! {

/// Fixed per-state delays and the choice of online action.
///
/// Delays are debounce times: how long a state must hold before its target is
/// activated. With `probe_online` set, adopting the online state starts a
/// reachability-probe loop instead of an immediate activation, probing every
/// `probe_interval_ms` until a probe succeeds.
#[derive(Clone, Copy, Debug, PartialEq, Eq, Structural)]
pub struct Config {
    pub offline_delay_ms: u64,
    pub captive_portal_delay_ms: u64,
    pub probe_interval_ms: u64,
    pub probe_online: bool,
}

/// The in-flight action for the adopted state. At most one exists at any
/// instant, and it issues its activation only on completion, so abandoning it
/// early leaks no side effect.
#[derive(Clone, Copy, Debug, PartialEq, Eq, Structural)]
pub enum Pending {
    /// The action has completed (or the adopted state needed none); the
    /// dispatcher only waits for the next state event.
    Idle,
    /// A debounce delay is running; when it elapses, `target` is activated.
    Delay { target: Target },
    /// The reachability-probe loop is running; `failures` probes have failed
    /// so far.
    Probe { failures: u64 },
}

/// What the event loop must wait for after a dispatcher step.
#[derive(Clone, Copy, Debug, PartialEq, Eq, Structural)]
pub enum Wait {
    /// Keep whatever timer or probe was already armed; nothing changed.
    Keep,
    /// Wait for the next state event only; no timer is armed.
    Event,
    /// Arm a timer for `ms` milliseconds, racing it against the next state
    /// event; on expiry report a delay elapse.
    Delay { ms: u64 },
    /// Wait `ms` milliseconds, then run one reachability probe, racing against
    /// the next state event; report the probe's outcome.
    Probe { ms: u64 },
}

/// One step's instruction to the event loop: an optional target to activate
/// now (a failed activation is fatal to the process), then what to wait for.
#[derive(Clone, Copy, Debug, PartialEq, Eq)]
pub struct Directive {
    pub activate: Option<Target>,
    pub wait: Wait,
}

/// The directive that changes nothing: no activation, keep the armed wait.
pub open spec fn spec_noop_directive() -> Directive {
    Directive { activate: None, wait: Wait::Keep }
}

/// The pending action and directive with which a freshly adopted state's
/// action begins: a debounce delay for offline and captive-portal, and for
/// online either an immediate activation or the first reachability probe.
pub open spec fn spec_start(s: ConnectivityState, c: Config) -> (Pending, Directive) {
    match s {
        ConnectivityState::Offline => (
            Pending::Delay { target: Target::Offline },
            Directive { activate: None, wait: Wait::Delay { ms: c.offline_delay_ms } },
        ),
        ConnectivityState::CaptivePortal => (
            Pending::Delay { target: Target::CaptivePortal },
            Directive { activate: None, wait: Wait::Delay { ms: c.captive_portal_delay_ms } },
        ),
        ConnectivityState::Online => if c.probe_online {
            (
                Pending::Probe { failures: 0 },
                Directive { activate: None, wait: Wait::Probe { ms: 0 } },
            )
        } else {
            (
                Pending::Idle,
                Directive { activate: Some(Target::Online), wait: Wait::Event },
            )
        },
    }
}

/// One more failed probe, saturating so the tally never wraps.
pub open spec fn spec_bump(failures: u64) -> u64 {
    if failures == u64::MAX {
        failures
    } else {
        (failures + 1) as u64
    }
}

/// The debounced, preemptible transition dispatcher's working state.
#[derive(Clone, Copy, Debug, PartialEq, Eq, Structural)]
pub struct Dispatcher {
    /// The adopted logical state.
    pub current: ConnectivityState,
    /// The single in-flight action for `current`.
    pub pending: Pending,
    /// Fixed delays and the online-action choice.
    pub config: Config,
}

impl Dispatcher {
    /// A newly normalized state arrives. Re-delivery of the adopted state is
    /// no transition: the in-flight action continues untouched. A different
    /// state preempts: the old action is dropped before it could activate, the
    /// state is adopted, and its action starts.
    pub open spec fn spec_on_state(self, s: ConnectivityState) -> (Dispatcher, Directive) {
        if s == self.current {
            (self, spec_noop_directive())
        } else {
            let (pending, directive) = spec_start(s, self.config);
            (Dispatcher { current: s, pending, config: self.config }, directive)
        }
    }

    /// A raw numeric report arrives: normalized, then handled as a state
    /// event; a report that normalizes to no transition changes nothing.
    pub open spec fn spec_on_raw_numeric(self, raw: u32) -> (Dispatcher, Directive) {
        match spec_normalize_numeric(raw) {
            Some(s) => self.spec_on_state(s),
            None => (self, spec_noop_directive()),
        }
    }

    /// A raw operational-state string arrives: normalized, then handled as a
    /// state event.
    pub open spec fn spec_on_raw_string(self, raw: Seq<char>) -> (Dispatcher, Directive) {
        self.spec_on_state(spec_normalize_string(raw))
    }

    /// The armed debounce delay elapsed: the delayed action completes by
    /// activating its target, exactly once. A stale elapse (no delay is
    /// pending) changes nothing.
    pub open spec fn spec_on_delay_elapsed(self) -> (Dispatcher, Directive) {
        match self.pending {
            Pending::Delay { target } => (
                Dispatcher { current: self.current, pending: Pending::Idle, config: self.config },
                Directive { activate: Some(target), wait: Wait::Event },
            ),
            _ => (self, spec_noop_directive()),
        }
    }

    /// A reachability probe finished. Success completes the online action by
    /// activating the online target. Failure keeps probing; the first failure
    /// activates the captive-portal target as an interim signal. A stale
    /// result (no probe loop is pending) changes nothing.
    pub open spec fn spec_on_probe_result(self, ok: bool) -> (Dispatcher, Directive) {
        match self.pending {
            Pending::Probe { failures } => if ok {
                (
                    Dispatcher {
                        current: self.current,
                        pending: Pending::Idle,
                        config: self.config,
                    },
                    Directive { activate: Some(Target::Online), wait: Wait::Event },
                )
            } else {
                (
                    Dispatcher {
                        current: self.current,
                        pending: Pending::Probe { failures: spec_bump(failures) },
                        config: self.config,
                    },
                    Directive {
                        activate: if failures == 0 {
                            Some(Target::CaptivePortal)
                        } else {
                            None
                        },
                        wait: Wait::Probe { ms: self.config.probe_interval_ms },
                    },
                )
            },
            _ => (self, spec_noop_directive()),
        }
    }

    /// Starts a dispatcher on the state read at subscription time; the initial
    /// state's action begins immediately, exactly as if it had just arrived.
    pub fn new(initial: ConnectivityState, config: Config) -> (r: (Dispatcher, Directive))
        ensures
            r.0.current == initial,
            r.0.config == config,
            (r.0.pending, r.1) == spec_start(initial, config),
    {
        let (pending, directive) = start_action(initial, config);
        (Dispatcher { current: initial, pending, config }, directive)
    }

    /// Handles a newly normalized state event.
    pub fn on_state(&mut self, s: ConnectivityState) -> (d: Directive)
        ensures
            (*final(self), d) == old(self).spec_on_state(s),
    {
        if s == self.current {
            Directive { activate: None, wait: Wait::Keep }
        } else {
            let (pending, directive) = start_action(s, self.config);
            self.current = s;
            self.pending = pending;
            directive
        }
    }

    /// Handles a raw numeric report; one that normalizes to no transition
    /// leaves the dispatcher untouched and activates nothing.
    pub fn on_raw_numeric(&mut self, raw: u32) -> (d: Directive)
        ensures
            (*final(self), d) == old(self).spec_on_raw_numeric(raw),
            spec_normalize_numeric(raw) is None ==> *final(self) == *old(self)
                && d == spec_noop_directive(),
    {
        match normalize_numeric(raw) {
            Some(s) => self.on_state(s),
            None => Directive { activate: None, wait: Wait::Keep },
        }
    }

    /// Handles a raw operational-state string report.
    pub fn on_raw_string(&mut self, raw: &str) -> (d: Directive)
        ensures
            (*final(self), d) == old(self).spec_on_raw_string(raw@),
    {
        let s = normalize_string(raw);
        self.on_state(s)
    }

    /// Handles the expiry of the armed debounce delay.
    pub fn on_delay_elapsed(&mut self) -> (d: Directive)
        ensures
            (*final(self), d) == old(self).spec_on_delay_elapsed(),
    {
        match self.pending {
            Pending::Delay { target } => {
                self.pending = Pending::Idle;
                Directive { activate: Some(target), wait: Wait::Event }
            },
            _ => Directive { activate: None, wait: Wait::Keep },
        }
    }

    /// Handles the outcome of one reachability probe.
    pub fn on_probe_result(&mut self, ok: bool) -> (d: Directive)
        ensures
            (*final(self), d) == old(self).spec_on_probe_result(ok),
    {
        match self.pending {
            Pending::Probe { failures } => if ok {
                self.pending = Pending::Idle;
                Directive { activate: Some(Target::Online), wait: Wait::Event }
            } else {
                let first_failure = failures == 0;
                let bumped = if failures == u64::MAX {
                    failures
                } else {
                    failures + 1
                };
                self.pending = Pending::Probe { failures: bumped };
                Directive {
                    activate: if first_failure {
                        Some(Target::CaptivePortal)
                    } else {
                        None
                    },
                    wait: Wait::Probe { ms: self.config.probe_interval_ms },
                }
            },
            _ => Directive { activate: None, wait: Wait::Keep },
        }
    }
}

/// Executable counterpart of [`spec_start`].
fn start_action(s: ConnectivityState, c: Config) -> (r: (Pending, Directive))
    ensures
        r == spec_start(s, c),
{
    match s {
        ConnectivityState::Offline => (
            Pending::Delay { target: Target::Offline },
            Directive { activate: None, wait: Wait::Delay { ms: c.offline_delay_ms } },
        ),
        ConnectivityState::CaptivePortal => (
            Pending::Delay { target: Target::CaptivePortal },
            Directive { activate: None, wait: Wait::Delay { ms: c.captive_portal_delay_ms } },
        ),
        ConnectivityState::Online => if c.probe_online {
            (
                Pending::Probe { failures: 0 },
                Directive { activate: None, wait: Wait::Probe { ms: 0 } },
            )
        } else {
            (
                Pending::Idle,
                Directive { activate: Some(Target::Online), wait: Wait::Event },
            )
        },
    }
}

} // verus!
