//! Debounced, preemptible dispatch of network-connectivity transitions.
//!
//! The library watches a stream of raw connectivity reports, classifies each
//! into a small set of logical states, and decides which exclusive operational
//! target of a service manager must be activated, absorbing transient blips
//! through per-state debounce delays and an optional reachability-probe loop.
//! All decision logic lives here as a pure, verified state machine; the
//! surrounding process performs the waiting, probing and activation calls that
//! the machine's directives ask for.

pub mod dispatch;
pub mod laws;
pub mod state;
