//! The process-wide hook registry: the keyboard and mouse hook handles,
//! the registered callback, and the termination flag.
//!
//! The registry is a plain value; the platform layer owns the single
//! process-wide instance and guards it with its own reader/writer lock.
//! The callback is an opaque value of type `C` to the registry: it is
//! stored and handed back, never invoked here, so the caller that receives
//! it from a dispatch decision performs the invocation itself.

use vstd::prelude::*;

verus! {

/// An opaque handle the platform returns when a hook is installed; it is
/// needed again to uninstall that hook.
#[derive(Debug, Clone, Copy, PartialEq, Eq, Structural)]
pub struct HookHandle {
    pub raw: isize,
}

/// The process-wide hook state. At most one keyboard hook and one mouse
/// hook are recorded at a time; the callback slot holds the most recently
/// registered callback; the exit flag is read by the message pump on every
/// iteration and set by a stop request.
#[derive(Debug, Clone, Copy)]
pub struct HookRegistry<C> {
    pub keyboard_hook: Option<HookHandle>,
    pub mouse_hook: Option<HookHandle>,
    pub callback: Option<C>,
    pub exit_flag: bool,
}

/// The registry after a callback registration: the new callback replaces
/// whatever was registered before; nothing else changes.
pub open spec fn spec_register_callback<C>(r: HookRegistry<C>, callback: C) -> HookRegistry<C> {
    HookRegistry { callback: Some(callback), ..r }
}

/// The registry after a successful keyboard-hook installation was recorded.
pub open spec fn spec_set_keyboard_hook_handle<C>(
    r: HookRegistry<C>,
    handle: HookHandle,
) -> HookRegistry<C> {
    HookRegistry { keyboard_hook: Some(handle), ..r }
}

/// The registry after a successful mouse-hook installation was recorded.
pub open spec fn spec_set_mouse_hook_handle<C>(
    r: HookRegistry<C>,
    handle: HookHandle,
) -> HookRegistry<C> {
    HookRegistry { mouse_hook: Some(handle), ..r }
}

/// The registry after the keyboard-hook handle was cleared.
pub open spec fn spec_clear_keyboard_hook_handle<C>(r: HookRegistry<C>) -> HookRegistry<C> {
    HookRegistry { keyboard_hook: None, ..r }
}

/// The registry after the mouse-hook handle was cleared.
pub open spec fn spec_clear_mouse_hook_handle<C>(r: HookRegistry<C>) -> HookRegistry<C> {
    HookRegistry { mouse_hook: None, ..r }
}

impl<C> HookRegistry<C> {
    /// A fresh registry: no hook installed, no callback registered, no
    /// termination requested.
    pub fn new() -> (r: HookRegistry<C>)
        ensures
            r.keyboard_hook is None,
            r.mouse_hook is None,
            r.callback is None,
            !r.exit_flag,
    {
        HookRegistry { keyboard_hook: None, mouse_hook: None, callback: None, exit_flag: false }
    }

    /// Replaces the registered callback; the last writer wins.
    pub fn register_callback(&mut self, callback: C)
        ensures
            *final(self) == spec_register_callback(*old(self), callback),
    {
        self.callback = Some(callback);
    }

    /// A read-only snapshot of the registered callback.
    pub fn get_callback(&self) -> (r: &Option<C>)
        ensures
            *r == self.callback,
    {
        &self.callback
    }

    /// Records the handle of a freshly installed keyboard hook and hands
    /// back the handle it displaces, if one was still stored: that hook
    /// is still installed, and the caller must uninstall it so that no
    /// install is ever leaked.
    pub fn set_keyboard_hook_handle(&mut self, handle: HookHandle) -> (displaced: Option<
        HookHandle,
    >)
        ensures
            displaced == old(self).keyboard_hook,
            *final(self) == spec_set_keyboard_hook_handle(*old(self), handle),
    {
        let displaced = self.keyboard_hook;
        self.keyboard_hook = Some(handle);
        displaced
    }

    /// Records the handle of a freshly installed mouse hook and hands
    /// back the handle it displaces, if one was still stored: that hook
    /// is still installed, and the caller must uninstall it so that no
    /// install is ever leaked.
    pub fn set_mouse_hook_handle(&mut self, handle: HookHandle) -> (displaced: Option<HookHandle>)
        ensures
            displaced == old(self).mouse_hook,
            *final(self) == spec_set_mouse_hook_handle(*old(self), handle),
    {
        let displaced = self.mouse_hook;
        self.mouse_hook = Some(handle);
        displaced
    }

    /// Removes the stored keyboard-hook handle and returns it, so the
    /// caller can uninstall the hook; no stale handle remains.
    pub fn clear_keyboard_hook_handle(&mut self) -> (taken: Option<HookHandle>)
        ensures
            taken == old(self).keyboard_hook,
            *final(self) == spec_clear_keyboard_hook_handle(*old(self)),
    {
        self.keyboard_hook.take()
    }

    /// Removes the stored mouse-hook handle and returns it, so the caller
    /// can uninstall the hook; no stale handle remains.
    pub fn clear_mouse_hook_handle(&mut self) -> (taken: Option<HookHandle>)
        ensures
            taken == old(self).mouse_hook,
            *final(self) == spec_clear_mouse_hook_handle(*old(self)),
    {
        self.mouse_hook.take()
    }

    /// Requests termination: the message pump observes the flag on its
    /// next iteration and exits.
    pub fn request_exit(&mut self)
        ensures
            *final(self) == (HookRegistry { exit_flag: true, ..*old(self) }),
    {
        self.exit_flag = true;
    }

    /// Clears the termination flag; a session does this before entering
    /// its message pump, so an earlier stop request cannot end it at once.
    pub fn clear_exit_flag(&mut self)
        ensures
            *final(self) == (HookRegistry { exit_flag: false, ..*old(self) }),
    {
        self.exit_flag = false;
    }

    /// Whether termination has been requested.
    pub fn should_exit(&self) -> (b: bool)
        ensures
            b == self.exit_flag,
    {
        self.exit_flag
    }
}

} // verus!
