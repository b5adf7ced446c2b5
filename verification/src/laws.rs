//! Laws of the dispatcher, stated and proved over whole runs of events.
//!
//! An [`Event`] is one input the event loop can hand the dispatcher; a run
//! folds a sequence of events through the machine and collects the directives
//! it answered with. The lemmas here pin down the debounce, preemption and
//! no-duplicate-activation guarantees.

use crate::dispatch::{spec_start, Directive, Dispatcher, Pending};
use crate::state::{ConnectivityState, Target};
use vstd::prelude::*;

verus! {

/// One input to the dispatcher, as the event loop would deliver it.
pub enum Event {
    /// A normalized state arrived from the connectivity source.
    State(ConnectivityState),
    /// A raw numeric report arrived from the connectivity source.
    RawNumeric(u32),
    /// The armed debounce delay expired.
    DelayElapsed,
    /// A reachability probe finished with this outcome.
    ProbeResult(bool),
}

/// One dispatcher step on one event.
pub open spec fn spec_step(d: Dispatcher, e: Event) -> (Dispatcher, Directive) {
    match e {
        Event::State(s) => d.spec_on_state(s),
        Event::RawNumeric(raw) => d.spec_on_raw_numeric(raw),
        Event::DelayElapsed => d.spec_on_delay_elapsed(),
        Event::ProbeResult(ok) => d.spec_on_probe_result(ok),
    }
}

/// Folds a sequence of events through the dispatcher; the i-th returned
/// directive answers the i-th event.
pub open spec fn spec_run(d: Dispatcher, es: Seq<Event>) -> (Dispatcher, Seq<Directive>)
    decreases es.len(),
{
    if es.len() == 0 {
        (d, Seq::<Directive>::empty())
    } else {
        let first = spec_step(d, es[0]);
        let rest = spec_run(first.0, es.drop_first());
        (rest.0, seq![first.1].add(rest.1))
    }
}

/// How many directives of a run activate the given target.
pub open spec fn count_activations(dirs: Seq<Directive>, t: Target) -> nat
    decreases dirs.len(),
{
    if dirs.len() == 0 {
        0
    } else {
        (if dirs[0].activate == Some(t) {
            1nat
        } else {
            0nat
        }) + count_activations(dirs.drop_first(), t)
    }
}

/// A run answers one directive per event.
pub proof fn lemma_run_len(d: Dispatcher, es: Seq<Event>)
    ensures
        spec_run(d, es).1.len() == es.len(),
    decreases es.len(),
{
    if es.len() > 0 {
        lemma_run_len(spec_step(d, es[0]).0, es.drop_first());
    }
}

/// Starting a state's action never activates a debounced target: offline and
/// captive-portal activations come only from a delay that elapsed.
proof fn lemma_start_activates_no_debounced_target(s: ConnectivityState, c: crate::dispatch::Config)
    ensures
        spec_start(s, c).1.activate != Some(Target::CaptivePortal),
        spec_start(s, c).1.activate != Some(Target::Offline),
{
}

/// Debounce: a captive-portal state superseded by an online state before its
/// delay elapses never activates the captive-portal target, and afterwards no
/// captive-portal delay is left pending that still could.
pub proof fn lemma_debounce_captive_portal(d: Dispatcher)
    requires
        d.current != ConnectivityState::CaptivePortal,
    ensures
        ({
            let (d1, dir1) = d.spec_on_state(ConnectivityState::CaptivePortal);
            let (d2, dir2) = d1.spec_on_state(ConnectivityState::Online);
            &&& dir1.activate != Some(Target::CaptivePortal)
            &&& dir2.activate != Some(Target::CaptivePortal)
            &&& !(d2.pending matches Pending::Delay { target } && target == Target::CaptivePortal)
        }),
{
}

/// No duplicate activation: re-delivering the adopted state, any number of
/// times, neither restarts nor cancels the in-flight action and never
/// activates any target.
pub proof fn lemma_no_duplicate_activation(d: Dispatcher, es: Seq<Event>)
    requires
        forall|i: int| 0 <= i < es.len() ==> es[i] == Event::State(d.current),
    ensures
        spec_run(d, es).0 == d,
        forall|t: Target| count_activations(spec_run(d, es).1, t) == 0,
    decreases es.len(),
{
    if es.len() > 0 {
        let first = spec_step(d, es[0]);
        assert(es[0] == Event::State(d.current));
        assert(first.0 == d);
        assert(first.1.activate is None);
        assert(forall|i: int|
            0 <= i < es.drop_first().len() ==> es.drop_first()[i] == Event::State(d.current));
        lemma_no_duplicate_activation(d, es.drop_first());
        let rest = spec_run(d, es.drop_first());
        let dirs = spec_run(d, es).1;
        assert(dirs.drop_first() =~= rest.1);
        assert forall|t: Target| count_activations(dirs, t) == 0 by {
            assert(count_activations(rest.1, t) == 0);
            assert(dirs[0].activate != Some(t));
        }
    }
}

/// The events that one maximal run of the adopted state can produce: timer
/// expiries and re-deliveries of that same state.
pub open spec fn within_run_events(d: Dispatcher, es: Seq<Event>) -> bool {
    forall|i: int|
        0 <= i < es.len() ==> (#[trigger] es[i] == Event::DelayElapsed || es[i] == Event::State(
            d.current,
        ))
}

/// A completed action does not re-fire: from an idle dispatcher, timer
/// expiries and re-deliveries of the adopted state change nothing and activate
/// nothing.
pub proof fn lemma_idle_run_no_activation(d: Dispatcher, es: Seq<Event>)
    requires
        d.pending is Idle,
        within_run_events(d, es),
    ensures
        spec_run(d, es).0 == d,
        forall|t: Target| count_activations(spec_run(d, es).1, t) == 0,
    decreases es.len(),
{
    if es.len() > 0 {
        let first = spec_step(d, es[0]);
        assert(first.0 == d);
        assert(first.1.activate is None);
        assert(within_run_events(d, es.drop_first()));
        lemma_idle_run_no_activation(d, es.drop_first());
        let rest = spec_run(d, es.drop_first());
        let dirs = spec_run(d, es).1;
        assert(dirs.drop_first() =~= rest.1);
        assert forall|t: Target| count_activations(dirs, t) == 0 by {
            assert(count_activations(rest.1, t) == 0);
            assert(dirs[0].activate != Some(t));
        }
    }
}

/// At most one activation per maximal run: from a pending debounce delay, a
/// run of timer expiries and re-deliveries of the adopted state activates the
/// delayed target at most once, and no other target at all.
pub proof fn lemma_run_single_activation(d: Dispatcher, es: Seq<Event>)
    requires
        d.pending matches Pending::Delay { .. },
        within_run_events(d, es),
    ensures
        spec_run(d, es).0.current == d.current,
        count_activations(spec_run(d, es).1, d.pending->target) <= 1,
        forall|t: Target|
            t != d.pending->target ==> count_activations(spec_run(d, es).1, t) == 0,
    decreases es.len(),
{
    if es.len() > 0 {
        let first = spec_step(d, es[0]);
        let dirs = spec_run(d, es).1;
        if es[0] == Event::State(d.current) {
            assert(first.0 == d);
            assert(first.1.activate is None);
            assert(within_run_events(d, es.drop_first()));
            lemma_run_single_activation(d, es.drop_first());
            let rest = spec_run(d, es.drop_first());
            assert(dirs.drop_first() =~= rest.1);
            assert(count_activations(dirs, d.pending->target) == count_activations(
                rest.1,
                d.pending->target,
            ));
            assert forall|t: Target|
                t != d.pending->target implies count_activations(dirs, t) == 0 by {
                assert(count_activations(rest.1, t) == 0);
                assert(dirs[0].activate != Some(t));
            }
        } else {
            assert(es[0] == Event::DelayElapsed);
            let d1 = first.0;
            assert(first.1.activate == Some(d.pending->target));
            assert(d1.pending is Idle);
            assert(d1.current == d.current);
            assert(within_run_events(d1, es.drop_first()));
            lemma_idle_run_no_activation(d1, es.drop_first());
            let rest = spec_run(d1, es.drop_first());
            assert(dirs.drop_first() =~= rest.1);
            assert(count_activations(dirs, d.pending->target) == 1 + count_activations(
                rest.1,
                d.pending->target,
            ));
            assert forall|t: Target|
                t != d.pending->target implies count_activations(dirs, t) == 0 by {
                assert(count_activations(rest.1, t) == 0);
                assert(dirs[0].activate != Some(t));
            }
        }
    }
}

/// The events of a sequence of normalized states.
pub open spec fn states_to_events(ss: Seq<ConnectivityState>) -> Seq<Event> {
    ss.map(|i: int, s: ConnectivityState| Event::State(s))
}

proof fn lemma_states_to_events_drop_first(ss: Seq<ConnectivityState>)
    requires
        ss.len() > 0,
    ensures
        states_to_events(ss).drop_first() =~= states_to_events(ss.drop_first()),
{
    assert forall|j: int|
        0 <= j < ss.len() - 1 implies states_to_events(ss).drop_first()[j] == states_to_events(
        ss.drop_first(),
    )[j] by {
        assert(states_to_events(ss)[j + 1] == Event::State(ss[j + 1]));
        assert(ss.drop_first()[j] == ss[j + 1]);
    }
}

/// Ordering: a sequence of normalized states with no two adjacent equal, the
/// first differing from the adopted one, starts exactly one action per state
/// (the i-th directive is exactly the i-th state's start directive), ends with
/// the last state adopted, and activates no debounced target at all: every
/// delayed action was preempted before it could complete.
pub proof fn lemma_ordering(d: Dispatcher, ss: Seq<ConnectivityState>)
    requires
        ss.len() > 0 ==> ss[0] != d.current,
        forall|i: int| 0 <= i < ss.len() - 1 ==> #[trigger] ss[i] != ss[i + 1],
    ensures
        ({
            let r = spec_run(d, states_to_events(ss));
            &&& r.1.len() == ss.len()
            &&& forall|i: int| 0 <= i < ss.len() ==> r.1[i] == spec_start(ss[i], d.config).1
            &&& r.0.config == d.config
            &&& (ss.len() > 0 ==> r.0.current == ss[ss.len() - 1])
            &&& (ss.len() == 0 ==> r.0 == d)
            &&& count_activations(r.1, Target::CaptivePortal) == 0
            &&& count_activations(r.1, Target::Offline) == 0
        }),
    decreases ss.len(),
{
    let es = states_to_events(ss);
    if ss.len() > 0 {
        assert(es[0] == Event::State(ss[0]));
        let first = spec_step(d, es[0]);
        let d1 = first.0;
        assert(d1.current == ss[0]);
        assert(d1.config == d.config);
        assert(first.1 == spec_start(ss[0], d.config).1);
        lemma_start_activates_no_debounced_target(ss[0], d.config);
        lemma_states_to_events_drop_first(ss);
        assert(ss.drop_first().len() > 0 ==> ss.drop_first()[0] != d1.current);
        assert forall|i: int|
            0 <= i < ss.drop_first().len() - 1 implies #[trigger] ss.drop_first()[i]
            != ss.drop_first()[i + 1] by {
            assert(ss.drop_first()[i] == ss[i + 1]);
            assert(ss.drop_first()[i + 1] == ss[i + 2]);
            assert(ss[i + 1] != ss[i + 2]);
        }
        lemma_ordering(d1, ss.drop_first());
        let rest = spec_run(d1, states_to_events(ss.drop_first()));
        let r = spec_run(d, es);
        assert(r.1 == seq![first.1].add(rest.1));
        assert(r.1.drop_first() =~= rest.1);
        assert forall|i: int| 0 <= i < ss.len() implies r.1[i] == spec_start(ss[i], d.config).1 by {
            if i > 0 {
                assert(r.1[i] == rest.1[i - 1]);
                assert(rest.1[i - 1] == spec_start(ss.drop_first()[i - 1], d1.config).1);
                assert(ss.drop_first()[i - 1] == ss[i]);
            }
        }
        assert(count_activations(r.1, Target::CaptivePortal) == count_activations(
            rest.1,
            Target::CaptivePortal,
        ));
        assert(count_activations(r.1, Target::Offline) == count_activations(
            rest.1,
            Target::Offline,
        ));
        if ss.len() > 1 {
            assert(r.0.current == ss.drop_first()[ss.drop_first().len() - 1]);
            assert(ss.drop_first()[ss.drop_first().len() - 1] == ss[ss.len() - 1]);
        }
    }
}

/// A probe run: `k` failed probes, then one successful one.
pub open spec fn probe_events(k: nat) -> Seq<Event> {
    Seq::new(
        k + 1,
        |i: int|
            if i < k {
                Event::ProbeResult(false)
            } else {
                Event::ProbeResult(true)
            },
    )
}

proof fn lemma_probe_events_drop_first(k: nat)
    requires
        k > 0,
    ensures
        probe_events(k).drop_first() =~= probe_events((k - 1) as nat),
{
    assert forall|j: int|
        0 <= j < k implies probe_events(k).drop_first()[j] == probe_events((k - 1) as nat)[j] by {
        assert(probe_events(k)[j + 1] == (if j + 1 < k {
            Event::ProbeResult(false)
        } else {
            Event::ProbeResult(true)
        }));
    }
}

/// Once at least one probe has failed, further failures stay silent: only the
/// final success activates, and it activates the online target.
proof fn lemma_probe_tail(d: Dispatcher, k: nat)
    requires
        d.pending matches Pending::Probe { failures } && failures >= 1,
    ensures
        ({
            let r = spec_run(d, probe_events(k));
            &&& r.1.len() == k + 1
            &&& forall|i: int| 0 <= i < k ==> r.1[i].activate is None
            &&& r.1[k as int].activate == Some(Target::Online)
            &&& r.0.pending is Idle
            &&& r.0.current == d.current
            &&& r.0.config == d.config
            &&& count_activations(r.1, Target::CaptivePortal) == 0
            &&& count_activations(r.1, Target::Online) == 1
        }),
    decreases k,
{
    let es = probe_events(k);
    let first = spec_step(d, es[0]);
    let r = spec_run(d, es);
    if k == 0 {
        reveal_with_fuel(spec_run, 2);
        reveal_with_fuel(count_activations, 2);
        assert(es[0] == Event::ProbeResult(true));
        assert(first.1.activate == Some(Target::Online));
        assert(first.0.pending is Idle);
        assert(es.drop_first().len() == 0);
        assert(r.1 =~= seq![first.1]);
        assert(r.1.drop_first() =~= Seq::<Directive>::empty());
        assert(count_activations(r.1, Target::CaptivePortal) == 0);
        assert(count_activations(r.1, Target::Online) == 1);
    } else {
        assert(es[0] == Event::ProbeResult(false));
        let d1 = first.0;
        assert(first.1.activate is None);
        assert(d1.pending matches Pending::Probe { failures } && failures >= 1);
        assert(d1.current == d.current && d1.config == d.config);
        lemma_probe_events_drop_first(k);
        lemma_probe_tail(d1, (k - 1) as nat);
        let rest = spec_run(d1, probe_events((k - 1) as nat));
        assert(r.1 == seq![first.1].add(rest.1));
        assert(r.1.drop_first() =~= rest.1);
        assert forall|i: int| 0 <= i < k implies r.1[i].activate is None by {
            if i > 0 {
                assert(r.1[i] == rest.1[i - 1]);
            }
        }
        assert(r.1[k as int] == rest.1[k - 1]);
        assert(count_activations(r.1, Target::CaptivePortal) == 0);
        assert(count_activations(r.1, Target::Online) == 1);
    }
}

/// A freshly started probe loop run to completion through `k` failures and a
/// final success: the captive-portal target is activated exactly once if any
/// probe failed, and at the first failure; the online target is activated
/// exactly once, at the success; afterwards the action is complete.
pub proof fn lemma_probe_run(d: Dispatcher, k: nat)
    requires
        d.pending == (Pending::Probe { failures: 0u64 }),
    ensures
        ({
            let r = spec_run(d, probe_events(k));
            &&& r.1.len() == k + 1
            &&& (k >= 1 ==> r.1[0].activate == Some(Target::CaptivePortal))
            &&& forall|i: int| 0 < i < k ==> r.1[i].activate is None
            &&& r.1[k as int].activate == Some(Target::Online)
            &&& r.0.pending is Idle
            &&& r.0.current == d.current
            &&& count_activations(r.1, Target::CaptivePortal) == (if k >= 1 {
                1nat
            } else {
                0nat
            })
            &&& count_activations(r.1, Target::Online) == 1
        }),
{
    let es = probe_events(k);
    let first = spec_step(d, es[0]);
    let r = spec_run(d, es);
    if k == 0 {
        reveal_with_fuel(spec_run, 2);
        reveal_with_fuel(count_activations, 2);
        assert(es[0] == Event::ProbeResult(true));
        assert(first.1.activate == Some(Target::Online));
        assert(es.drop_first().len() == 0);
        assert(r.1 =~= seq![first.1]);
        assert(r.1.drop_first() =~= Seq::<Directive>::empty());
        assert(count_activations(r.1, Target::CaptivePortal) == 0);
        assert(count_activations(r.1, Target::Online) == 1);
    } else {
        assert(es[0] == Event::ProbeResult(false));
        let d1 = first.0;
        assert(first.1.activate == Some(Target::CaptivePortal));
        assert(d1.pending == (Pending::Probe { failures: 1u64 }));
        lemma_probe_events_drop_first(k);
        lemma_probe_tail(d1, (k - 1) as nat);
        let rest = spec_run(d1, probe_events((k - 1) as nat));
        assert(r.1 == seq![first.1].add(rest.1));
        assert(r.1.drop_first() =~= rest.1);
        assert forall|i: int| 0 < i < k implies r.1[i].activate is None by {
            assert(r.1[i] == rest.1[i - 1]);
        }
        assert(r.1[k as int] == rest.1[k - 1]);
        assert(count_activations(r.1, Target::CaptivePortal) == 1);
        assert(count_activations(r.1, Target::Online) == 1);
    }
}

/// Online verification: adopting the online state in the probe variant
/// activates nothing by itself; a probe run of `k` failures then a success
/// activates the captive-portal target exactly once (at the first failure, if
/// any) and the online target exactly once (at the success) — never in the
/// reverse order — and completes the action.
pub proof fn lemma_online_verification(d: Dispatcher, k: nat)
    requires
        d.current != ConnectivityState::Online,
        d.config.probe_online,
    ensures
        ({
            let a = d.spec_on_state(ConnectivityState::Online);
            let r = spec_run(a.0, probe_events(k));
            &&& a.1.activate is None
            &&& (k >= 1 ==> r.1[0].activate == Some(Target::CaptivePortal))
            &&& forall|i: int| 0 < i < k ==> r.1[i].activate is None
            &&& r.1[k as int].activate == Some(Target::Online)
            &&& count_activations(r.1, Target::CaptivePortal) == (if k >= 1 {
                1nat
            } else {
                0nat
            })
            &&& count_activations(r.1, Target::Online) == 1
            &&& r.0.pending is Idle
        }),
{
    let a = d.spec_on_state(ConnectivityState::Online);
    assert(a.0.pending == (Pending::Probe { failures: 0u64 }));
    lemma_probe_run(a.0, k);
}

} // verus!
