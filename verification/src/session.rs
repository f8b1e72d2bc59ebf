//! The per-run state machine of the host: a fixed sequence of stages, each
//! advanced by the success or failure of one outside step, with every
//! failure fatal and no path back to an earlier stage.

use vstd::prelude::*;

verus! {

/// The stages of one run, in the order they are reached.
#[derive(Clone, Copy, Debug, PartialEq, Eq, Structural)]
pub enum Stage {
    Uninitialized,
    Bootstrapped,
    CapabilitiesInjected,
    PluginLoaded,
    Dispatched,
    Resolved,
    Failed,
}

/// The stage a successful step leads to.
pub open spec fn success_successor(s: Stage) -> Stage {
    match s {
        Stage::Uninitialized => Stage::Bootstrapped,
        Stage::Bootstrapped => Stage::CapabilitiesInjected,
        Stage::CapabilitiesInjected => Stage::PluginLoaded,
        Stage::PluginLoaded => Stage::Dispatched,
        Stage::Dispatched => Stage::Resolved,
        Stage::Resolved => Stage::Resolved,
        Stage::Failed => Stage::Failed,
    }
}

/// The run ends in one of these stages.
pub open spec fn is_terminal(s: Stage) -> bool {
    s == Stage::Resolved || s == Stage::Failed
}

/// How far along the fixed order a stage stands.
pub open spec fn rank(s: Stage) -> nat {
    match s {
        Stage::Uninitialized => 0,
        Stage::Bootstrapped => 1,
        Stage::CapabilitiesInjected => 2,
        Stage::PluginLoaded => 3,
        Stage::Dispatched => 4,
        Stage::Resolved => 5,
        Stage::Failed => 5,
    }
}

/// Advances the run by the outcome of one step: success moves to the next
/// stage of the fixed order, failure is fatal.
pub fn advance(s: Stage, ok: bool) -> (r: Stage)
    requires
        !is_terminal(s),
    ensures
        ok ==> r == success_successor(s),
        !ok ==> r == Stage::Failed,
{
    if ok {
        match s {
            Stage::Uninitialized => Stage::Bootstrapped,
            Stage::Bootstrapped => Stage::CapabilitiesInjected,
            Stage::CapabilitiesInjected => Stage::PluginLoaded,
            Stage::PluginLoaded => Stage::Dispatched,
            Stage::Dispatched => Stage::Resolved,
            Stage::Resolved => Stage::Resolved,
            Stage::Failed => Stage::Failed,
        }
    } else {
        Stage::Failed
    }
}

/// Every step makes progress along the fixed order — a run never returns to
/// an earlier stage — and failure is terminal: there is no recovery path.
pub proof fn lemma_no_recovery(s: Stage, ok: bool)
    requires
        !is_terminal(s),
    ensures
        ok ==> rank(success_successor(s)) == rank(s) + 1,
        !ok ==> is_terminal(Stage::Failed) && rank(Stage::Failed) >= rank(s),
{
}

/// The fixed order of a fully successful run: bootstrap, capability
/// injection, plugin load, dispatch, resolution.
pub proof fn lemma_run_order()
    ensures
        success_successor(Stage::Uninitialized) == Stage::Bootstrapped,
        success_successor(Stage::Bootstrapped) == Stage::CapabilitiesInjected,
        success_successor(Stage::CapabilitiesInjected) == Stage::PluginLoaded,
        success_successor(Stage::PluginLoaded) == Stage::Dispatched,
        success_successor(Stage::Dispatched) == Stage::Resolved,
        is_terminal(Stage::Resolved),
{
}

} // verus!
