//! The hook lifecycle: callback registration, the message-pump decision,
//! and shutdown.
//!
//! The platform layer drives a session as `Idle -> Running -> Stopping ->
//! Idle`: it installs the requested hooks and records their handles, clears
//! the termination flag, then pumps messages while `pump_should_continue`
//! says so. A stop request sets the flag and clears both handles; the
//! handles it returns are the uninstall work left to the platform layer,
//! which performs each uninstall exactly once per recorded install.

use vstd::prelude::*;

use crate::registry::{spec_register_callback, HookHandle, HookRegistry};

verus! {

/// A lifecycle failure surfaced by a public entry point. The registry
/// itself cannot fail; the platform layer that guards it with a lock maps
/// a poisoned lock to `LockPoisoned`, and a rejected hook installation to
/// `InstallFailed`.
#[derive(Debug, Clone, Copy, PartialEq, Eq, Structural)]
pub enum HookError {
    LockPoisoned,
    InstallFailed,
}

/// The uninstall work a stop request leaves to the platform layer: each
/// handle that was recorded at the time of the stop, to be uninstalled
/// exactly once. An absent handle means that hook was not installed and
/// uninstalling it is a no-op.
#[derive(Debug, Clone, Copy, PartialEq, Eq)]
pub struct StopPlan {
    pub keyboard: Option<HookHandle>,
    pub mouse: Option<HookHandle>,
}

/// The registry after a stop request: termination is flagged and both
/// handle slots are cleared, while the registered callback is kept.
pub open spec fn spec_stop<C>(r: HookRegistry<C>) -> HookRegistry<C> {
    HookRegistry { keyboard_hook: None, mouse_hook: None, exit_flag: true, ..r }
}

/// The uninstall work a stop request on registry `r` hands back.
pub open spec fn spec_stop_plan<C>(r: HookRegistry<C>) -> StopPlan {
    StopPlan { keyboard: r.keyboard_hook, mouse: r.mouse_hook }
}

/// Whether the message pump runs another iteration: only while message
/// retrieval still yields messages and no termination was requested.
pub open spec fn spec_pump_should_continue<C>(r: HookRegistry<C>, message_available: bool) -> bool {
    message_available && !r.exit_flag
}

/// Replaces the registered callback with `callback`; the last writer
/// wins, and hook handles and the termination flag are untouched. Always
/// succeeds on the registry itself; the platform layer maps a poisoned
/// lock around the registry to `Err(HookError::LockPoisoned)` instead of
/// calling this.
pub fn set_hook_callback<C>(registry: &mut HookRegistry<C>, callback: C) -> (r: Result<
    (),
    HookError,
>)
    ensures
        r is Ok,
        *final(registry) == spec_register_callback(*old(registry), callback),
{
    registry.register_callback(callback);
    Ok(())
}

/// Requests shutdown: sets the termination flag, so the message pump
/// exits on its next iteration, and clears both hook handles, returning
/// them as the uninstall work. Idempotent, and a safe no-op before any
/// start: with no handle recorded the plan is empty and the call still
/// succeeds.
pub fn stop_hook<C>(registry: &mut HookRegistry<C>) -> (r: Result<StopPlan, HookError>)
    ensures
        r matches Ok(plan) && plan == spec_stop_plan(*old(registry)),
        *final(registry) == spec_stop(*old(registry)),
{
    registry.request_exit();
    let keyboard = registry.clear_keyboard_hook_handle();
    let mouse = registry.clear_mouse_hook_handle();
    Ok(StopPlan { keyboard, mouse })
}

/// The message pump's per-iteration decision: continue exactly when the
/// last retrieval yielded a message and no termination was requested.
pub fn pump_should_continue<C>(registry: &HookRegistry<C>, message_available: bool) -> (b: bool)
    ensures
        b == spec_pump_should_continue(*registry, message_available),
{
    message_available && !registry.should_exit()
}

/// After a stop, no stale handle remains: both slots are empty, so a
/// second start records its fresh handles and finds nothing leaked from
/// the first session.
pub proof fn lemma_stop_then_start_reinstalls<C>(
    r: HookRegistry<C>,
    keyboard: HookHandle,
    mouse: HookHandle,
)
    ensures
        spec_stop(r).keyboard_hook is None,
        spec_stop(r).mouse_hook is None,
        crate::registry::spec_set_keyboard_hook_handle(spec_stop(r), keyboard).keyboard_hook
            == Some(keyboard),
        crate::registry::spec_set_mouse_hook_handle(spec_stop(r), mouse).mouse_hook == Some(mouse),
{
}

/// Once a stop was requested, the message pump does not continue, whether
/// or not another message is available: the loop observes termination on
/// its next iteration.
pub proof fn lemma_stop_halts_pump<C>(r: HookRegistry<C>, message_available: bool)
    ensures
        !spec_pump_should_continue(spec_stop(r), message_available),
{
}

} // verus!
